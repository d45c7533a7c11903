//! Sans-I/O core for reading and writing UTF-16 text over byte streams.
//!
//! Nothing in this crate performs I/O. Every operation is a state machine:
//! the caller performs one raw two-byte read or write, reports how it went,
//! and is told what to do next. All decisions (byte order, surrogate pairing,
//! line splitting, retry and partial-write policy) are made here.

pub mod auto;
pub mod event;
pub mod laws;
pub mod order;
pub mod read;
pub mod utf16;
pub mod write;

pub use auto::{AutoEndianChars, AutoEndianLines, AutoEndianReader, AutoEndianShorts, BomError};
pub use event::{FailureKind, IoFailure, PassStep, Step, WriteStep};
pub use order::{BigEndian, ByteOrder, Endianness, LittleEndian, BE, LE};
pub use read::{
    read_utf16_line, shorts, utf16_chars, utf16_lines, Chars, DecodeError, LineReader, Lines,
    RawRead, Shorts,
};
pub use write::{
    write_all_shorts, write_bom, write_shorts, write_utf16_string, AllShortsWrite, RawWrite,
    ShortsWrite, StringWrite, Utf16Written, WriteError,
};
