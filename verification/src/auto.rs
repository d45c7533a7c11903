//! Handles that carry their byte order as a value: chosen by the caller, or
//! found from a byte-order mark at the head of the stream.

use crate::event::{IoFailure, Step};
use crate::order::{decode_word, word_of, ByteOrder, BE, LE};
use crate::read::{
    chars_step, line_step, lines_step, shorts, shorts_step, utf16_chars, utf16_lines, yielded,
    Chars, DecodeError, LineReader, LineView, Lines, RawRead, Shorts,
};
use crate::utf16::is_surrogate;
use vstd::prelude::*;

verus! {

/// Why no byte order could be found.
#[derive(Debug, PartialEq, Eq)]
pub enum BomError<E> {
    /// The read of the mark failed.
    Io(IoFailure<E>),
    /// The stream starts with this code unit (read as little-endian), which
    /// is no byte-order mark.
    InvalidByteOrderMark(u16),
}

/// A source together with the byte order of its stream.
#[derive(Debug)]
pub enum AutoEndianReader<R> {
    /// A little-endian stream.
    Little(R),
    /// A big-endian stream.
    Big(R),
}

/// Reader of code units from an [`AutoEndianReader`].
#[derive(Debug)]
pub enum AutoEndianShorts<R> {
    /// Over a little-endian stream.
    Little(Shorts<LE, R>),
    /// Over a big-endian stream.
    Big(Shorts<BE, R>),
}

/// Decoder of scalar values from an [`AutoEndianReader`].
#[derive(Debug)]
pub enum AutoEndianChars<R> {
    /// Over a little-endian stream.
    Little(Chars<LE, R>),
    /// Over a big-endian stream.
    Big(Chars<BE, R>),
}

/// Iterator over the lines of an [`AutoEndianReader`].
#[derive(Debug)]
pub enum AutoEndianLines<R> {
    /// Over a little-endian stream.
    Little(Lines<LE, R>),
    /// Over a big-endian stream.
    Big(Lines<BE, R>),
}

/// The handle that a stream gets from its first code unit: the unit is read
/// as little-endian, U+FEFF stands for a little-endian stream, its mirror
/// image 0xFFFE for a big-endian one, and nothing else is a mark.
pub open spec fn bom_choice<R, E>(inner: R, probe: RawRead<E>) -> Result<
    AutoEndianReader<R>,
    BomError<E>,
> {
    match probe {
        Err(failure) => Err(BomError::Io(failure)),
        Ok(raw) => {
            let mark = word_of(ByteOrder::Little, raw.0, raw.1);
            if mark == 0xFEFF {
                Ok(AutoEndianReader::Little(inner))
            } else if mark == 0xFFFE {
                Ok(AutoEndianReader::Big(inner))
            } else {
                Err(BomError::InvalidByteOrderMark(mark))
            }
        },
    }
}

impl<R> AutoEndianReader<R> {
    /// The byte order of the stream.
    pub open spec fn order(&self) -> ByteOrder {
        match *self {
            AutoEndianReader::Little(_) => ByteOrder::Little,
            AutoEndianReader::Big(_) => ByteOrder::Big,
        }
    }

    /// The source.
    pub open spec fn source(&self) -> R {
        match *self {
            AutoEndianReader::Little(inner) => inner,
            AutoEndianReader::Big(inner) => inner,
        }
    }

    /// Makes a handle for a little-endian stream.
    pub fn new_little(inner: R) -> (reader: Self)
        ensures
            reader == AutoEndianReader::Little(inner),
    {
        AutoEndianReader::Little(inner)
    }

    /// Makes a handle for a big-endian stream.
    pub fn new_big(inner: R) -> (reader: Self)
        ensures
            reader == AutoEndianReader::Big(inner),
    {
        AutoEndianReader::Big(inner)
    }

    /// Whether the stream is little-endian.
    pub fn is_little(&self) -> (little: bool)
        ensures
            little == (self.order() == ByteOrder::Little),
            little == (*self is Little),
    {
        match *self {
            AutoEndianReader::Little(_) => true,
            _ => false,
        }
    }

    /// Whether the stream is big-endian.
    pub fn is_big(&self) -> (big: bool)
        ensures
            big == (self.order() == ByteOrder::Big),
            big == (*self is Big),
    {
        match *self {
            AutoEndianReader::Big(_) => true,
            _ => false,
        }
    }

    /// Makes a handle from the outcome of reading the first code unit of the
    /// stream, which must be a byte-order mark. A failed read is reported as
    /// it is, whatever its kind.
    pub fn new_auto_bom<E>(inner: R, probe: RawRead<E>) -> (made: Result<Self, BomError<E>>)
        ensures
            made == bom_choice(inner, probe),
    {
        match probe {
            Err(failure) => Err(BomError::Io(failure)),
            Ok(raw) => {
                let mark = decode_word(ByteOrder::Little, raw.0, raw.1);
                if mark == 0xFEFF {
                    Ok(AutoEndianReader::Little(inner))
                } else if mark == 0xFFFE {
                    Ok(AutoEndianReader::Big(inner))
                } else {
                    Err(BomError::InvalidByteOrderMark(mark))
                }
            },
        }
    }

    /// The source, for the driver to read from.
    pub fn get_mut(&mut self) -> (source: &mut R)
        ensures
            *source == old(self).source(),
            final(self).source() == *final(source),
            final(self).order() == old(self).order(),
    {
        match self {
            AutoEndianReader::Little(inner) => inner,
            AutoEndianReader::Big(inner) => inner,
        }
    }

    /// Takes the outcome of one read and gives the code unit in the byte
    /// order of the stream. A failed read is reported as it is, whatever its
    /// kind.
    pub fn read_u16<E>(&self, raw: RawRead<E>) -> (unit: Result<u16, IoFailure<E>>)
        ensures
            unit == match raw {
                Ok(bytes) => Ok::<u16, IoFailure<E>>(word_of(self.order(), bytes.0, bytes.1)),
                Err(failure) => Err(failure),
            },
    {
        match raw {
            Ok(bytes) => match *self {
                AutoEndianReader::Little(_) => Ok(decode_word(ByteOrder::Little, bytes.0, bytes.1)),
                AutoEndianReader::Big(_) => Ok(decode_word(ByteOrder::Big, bytes.0, bytes.1)),
            },
            Err(failure) => Err(failure),
        }
    }

    /// Turns the handle into a reader of code units.
    pub fn shorts(self) -> (reader: AutoEndianShorts<R>)
        ensures
            reader.order() == self.order(),
            reader.source() == self.source(),
    {
        match self {
            AutoEndianReader::Little(inner) => AutoEndianShorts::Little(shorts::<LE, R>(inner)),
            AutoEndianReader::Big(inner) => AutoEndianShorts::Big(shorts::<BE, R>(inner)),
        }
    }

    /// Turns the handle into a decoder of scalar values.
    pub fn utf16_chars(self) -> (decoder: AutoEndianChars<R>)
        ensures
            decoder.order() == self.order(),
            decoder.source() == self.source(),
            decoder.pending() is None,
    {
        match self {
            AutoEndianReader::Little(inner) => AutoEndianChars::Little(utf16_chars::<LE, R>(inner)),
            AutoEndianReader::Big(inner) => AutoEndianChars::Big(utf16_chars::<BE, R>(inner)),
        }
    }

    /// Takes the outcome of a read, in the byte order of the stream, while a
    /// line is read into `buf`: see [`LineReader::read_line`].
    pub fn read_utf16_line<E>(
        &self,
        reader: &mut LineReader,
        buf: &mut String,
        event: RawRead<E>,
    ) -> (step: Step<Result<usize, DecodeError<E>>>)
        ensures
            final(reader)@ == line_step(self.order(), old(reader)@, event).0,
            match line_step(self.order(), old(reader)@, event).1 {
                Step::Read => step is Read && final(buf)@ == old(buf)@,
                Step::Yield((line, end)) => final(buf)@ == old(buf)@ + line && step == Step::Yield(
                    match end {
                        Ok(()) => Ok::<usize, DecodeError<E>>(line.len() as usize),
                        Err(error) => Err(error),
                    },
                ),
            },
    {
        match *self {
            AutoEndianReader::Little(_) => reader.read_line(ByteOrder::Little, buf, event),
            AutoEndianReader::Big(_) => reader.read_line(ByteOrder::Big, buf, event),
        }
    }

    /// Turns the handle into an iterator over lines.
    pub fn utf16_lines(self) -> (lines: AutoEndianLines<R>)
        ensures
            lines.order() == self.order(),
            lines.source() == self.source(),
            lines.state() == LineView::fresh(),
    {
        match self {
            AutoEndianReader::Little(inner) => AutoEndianLines::Little(utf16_lines::<LE, R>(inner)),
            AutoEndianReader::Big(inner) => AutoEndianLines::Big(utf16_lines::<BE, R>(inner)),
        }
    }
}

impl<R> AutoEndianShorts<R> {
    /// The byte order of the stream.
    pub open spec fn order(&self) -> ByteOrder {
        match *self {
            AutoEndianShorts::Little(_) => ByteOrder::Little,
            AutoEndianShorts::Big(_) => ByteOrder::Big,
        }
    }

    /// The source.
    pub open spec fn source(&self) -> R {
        match *self {
            AutoEndianShorts::Little(reader) => reader.source(),
            AutoEndianShorts::Big(reader) => reader.source(),
        }
    }

    /// The source, for the driver to read from.
    pub fn get_mut(&mut self) -> (source: &mut R)
        ensures
            *source == old(self).source(),
            final(self).source() == *final(source),
            final(self).order() == old(self).order(),
    {
        match self {
            AutoEndianShorts::Little(reader) => reader.get_mut(),
            AutoEndianShorts::Big(reader) => reader.get_mut(),
        }
    }

    /// Takes the outcome of a read and says what comes next, as
    /// [`Shorts::next`] does in the byte order of the stream.
    pub fn next<E>(&self, event: RawRead<E>) -> (step: Step<Option<Result<u16, IoFailure<E>>>>)
        ensures
            step == shorts_step(self.order(), event),
    {
        match self {
            AutoEndianShorts::Little(reader) => reader.next(event),
            AutoEndianShorts::Big(reader) => reader.next(event),
        }
    }
}

impl<R> AutoEndianChars<R> {
    /// The byte order of the stream.
    pub open spec fn order(&self) -> ByteOrder {
        match *self {
            AutoEndianChars::Little(_) => ByteOrder::Little,
            AutoEndianChars::Big(_) => ByteOrder::Big,
        }
    }

    /// The source.
    pub open spec fn source(&self) -> R {
        match *self {
            AutoEndianChars::Little(decoder) => decoder.source(),
            AutoEndianChars::Big(decoder) => decoder.source(),
        }
    }

    /// The surrogate that was read and waits for its partner, if any.
    pub open spec fn pending(&self) -> Option<u16> {
        match *self {
            AutoEndianChars::Little(decoder) => decoder.pending(),
            AutoEndianChars::Big(decoder) => decoder.pending(),
        }
    }

    /// The source, for the driver to read from.
    pub fn get_mut(&mut self) -> (source: &mut R)
        ensures
            *source == old(self).source(),
            final(self).source() == *final(source),
            final(self).order() == old(self).order(),
            final(self).pending() == old(self).pending(),
    {
        match self {
            AutoEndianChars::Little(decoder) => decoder.get_mut(),
            AutoEndianChars::Big(decoder) => decoder.get_mut(),
        }
    }

    /// Takes the outcome of a read and says what comes next, as
    /// [`Chars::next`] does in the byte order of the stream.
    pub fn next<E>(&mut self, event: RawRead<E>) -> (step: Step<
        Option<Result<char, DecodeError<E>>>,
    >)
        ensures
            (final(self).pending(), step) == chars_step(
                old(self).order(),
                old(self).pending(),
                event,
            ),
            final(self).order() == old(self).order(),
            final(self).source() == old(self).source(),
            final(self).pending() matches Some(unit) ==> is_surrogate(unit),
    {
        match self {
            AutoEndianChars::Little(decoder) => decoder.next(event),
            AutoEndianChars::Big(decoder) => decoder.next(event),
        }
    }
}

impl<R> AutoEndianLines<R> {
    /// The byte order of the stream.
    pub open spec fn order(&self) -> ByteOrder {
        match *self {
            AutoEndianLines::Little(_) => ByteOrder::Little,
            AutoEndianLines::Big(_) => ByteOrder::Big,
        }
    }

    /// The source.
    pub open spec fn source(&self) -> R {
        match *self {
            AutoEndianLines::Little(lines) => lines.source(),
            AutoEndianLines::Big(lines) => lines.source(),
        }
    }

    /// What was gathered of the line that is being read.
    pub open spec fn state(&self) -> LineView {
        match *self {
            AutoEndianLines::Little(lines) => lines.state(),
            AutoEndianLines::Big(lines) => lines.state(),
        }
    }

    /// The source, for the driver to read from.
    pub fn get_mut(&mut self) -> (source: &mut R)
        ensures
            *source == old(self).source(),
            final(self).source() == *final(source),
            final(self).order() == old(self).order(),
            final(self).state() == old(self).state(),
    {
        match self {
            AutoEndianLines::Little(lines) => lines.get_mut(),
            AutoEndianLines::Big(lines) => lines.get_mut(),
        }
    }

    /// Takes the outcome of a read and says what comes next, as
    /// [`Lines::next`] does in the byte order of the stream.
    pub fn next<E>(&mut self, event: RawRead<E>) -> (step: Step<
        Option<Result<String, DecodeError<E>>>,
    >)
        ensures
            (final(self).state(), yielded(step)) == lines_step(
                old(self).order(),
                old(self).state(),
                event,
            ),
            final(self).order() == old(self).order(),
            final(self).source() == old(self).source(),
            step matches Step::Yield(Some(Ok(text))) ==> !text@.contains('\n'),
    {
        match self {
            AutoEndianLines::Little(lines) => lines.next(event),
            AutoEndianLines::Big(lines) => lines.next(event),
        }
    }
}

} // verus!
