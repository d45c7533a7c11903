//! Byte order of a 16-bit code unit on the wire.

use vstd::prelude::*;

verus! {

/// How the two bytes of a code unit are laid out in the stream.
#[derive(Clone, Copy, Debug, PartialEq, Eq, Structural)]
pub enum ByteOrder {
    /// Least significant byte first.
    Little,
    /// Most significant byte first.
    Big,
}

/// The code unit that the bytes `first`, `second` (in stream order) stand for.
pub open spec fn word_of(order: ByteOrder, first: u8, second: u8) -> u16 {
    match order {
        ByteOrder::Little => (first + 256 * second) as u16,
        ByteOrder::Big => (256 * first + second) as u16,
    }
}

/// The two bytes, in stream order, that stand for `word`.
pub open spec fn bytes_of(order: ByteOrder, word: u16) -> (u8, u8) {
    match order {
        ByteOrder::Little => ((word % 256) as u8, (word / 256) as u8),
        ByteOrder::Big => ((word / 256) as u8, (word % 256) as u8),
    }
}

/// Calls `<byteorder::LittleEndian as byteorder::ByteOrder>::read_u16` on a
/// two-byte buffer. Trusted: the result is `first + 256 * second`.
#[verifier::external_body]
fn le_read_u16(first: u8, second: u8) -> (word: u16)
    ensures
        word == word_of(ByteOrder::Little, first, second),
{
    <byteorder::LittleEndian as byteorder::ByteOrder>::read_u16(&[first, second])
}

/// Calls `<byteorder::BigEndian as byteorder::ByteOrder>::read_u16` on a
/// two-byte buffer. Trusted: the result is `256 * first + second`.
#[verifier::external_body]
fn be_read_u16(first: u8, second: u8) -> (word: u16)
    ensures
        word == word_of(ByteOrder::Big, first, second),
{
    <byteorder::BigEndian as byteorder::ByteOrder>::read_u16(&[first, second])
}

/// Calls `<byteorder::LittleEndian as byteorder::ByteOrder>::write_u16` on a
/// two-byte buffer. Trusted: the buffer then holds the low byte of `word`,
/// followed by its high byte.
#[verifier::external_body]
fn le_write_u16(word: u16) -> (bytes: (u8, u8))
    ensures
        bytes == bytes_of(ByteOrder::Little, word),
{
    let mut buf = [0u8; 2];
    <byteorder::LittleEndian as byteorder::ByteOrder>::write_u16(&mut buf, word);
    (buf[0], buf[1])
}

/// Calls `<byteorder::BigEndian as byteorder::ByteOrder>::write_u16` on a
/// two-byte buffer. Trusted: the buffer then holds the high byte of `word`,
/// followed by its low byte.
#[verifier::external_body]
fn be_write_u16(word: u16) -> (bytes: (u8, u8))
    ensures
        bytes == bytes_of(ByteOrder::Big, word),
{
    let mut buf = [0u8; 2];
    <byteorder::BigEndian as byteorder::ByteOrder>::write_u16(&mut buf, word);
    (buf[0], buf[1])
}

/// Assembles a code unit from two bytes taken from the stream in this order.
pub fn decode_word(order: ByteOrder, first: u8, second: u8) -> (word: u16)
    ensures
        word == word_of(order, first, second),
{
    match order {
        ByteOrder::Little => le_read_u16(first, second),
        ByteOrder::Big => be_read_u16(first, second),
    }
}

/// Splits a code unit into the two bytes to put on the stream, in this order.
pub fn encode_word(order: ByteOrder, word: u16) -> (bytes: (u8, u8))
    ensures
        bytes == bytes_of(order, word),
{
    match order {
        ByteOrder::Little => le_write_u16(word),
        ByteOrder::Big => be_write_u16(word),
    }
}

/// A byte order fixed at compile time.
pub trait Endianness {
    /// The byte order that this tag stands for.
    spec fn order() -> ByteOrder;

    /// The byte order that this tag stands for, as a value.
    fn tag() -> (o: ByteOrder)
        ensures
            o == Self::order(),
    ;
}

/// Tag for little-endian streams.
#[derive(Clone, Copy, Debug, PartialEq, Eq)]
pub struct LittleEndian;

/// Tag for big-endian streams.
#[derive(Clone, Copy, Debug, PartialEq, Eq)]
pub struct BigEndian;

/// Short name for [`LittleEndian`].
pub type LE = LittleEndian;

/// Short name for [`BigEndian`].
pub type BE = BigEndian;

impl Endianness for LittleEndian {
    open spec fn order() -> ByteOrder {
        ByteOrder::Little
    }

    fn tag() -> ByteOrder {
        ByteOrder::Little
    }
}

impl Endianness for BigEndian {
    open spec fn order() -> ByteOrder {
        ByteOrder::Big
    }

    fn tag() -> ByteOrder {
        ByteOrder::Big
    }
}

/// Reading back the bytes of a code unit, in the same order, gives the code unit.
pub proof fn lemma_word_of_bytes_of(order: ByteOrder, word: u16)
    ensures
        word_of(order, bytes_of(order, word).0, bytes_of(order, word).1) == word,
{
}

/// Laying out the code unit that two bytes stand for gives back the two bytes.
pub proof fn lemma_bytes_of_word_of(order: ByteOrder, first: u8, second: u8)
    ensures
        bytes_of(order, word_of(order, first, second)) == (first, second),
{
}

} // verus!
