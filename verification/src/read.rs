//! Reading: code units, scalar values and lines from raw two-byte reads.
//!
//! The driver reads two bytes from its source and hands the outcome to the
//! machine; the machine answers [`Step::Read`] (read again) or
//! [`Step::Yield`] (the next item, `None` at the end of the stream).
//! After it has yielded an item, an error or the end of the stream, a machine
//! is back in its initial state and decodes whatever is fed to it next as the
//! start of a new item.

use crate::event::{FailureKind, IoFailure, Step};
use crate::order::{decode_word, word_of, ByteOrder, Endianness};
use crate::utf16::{decode_pair, decode_unit, is_pair, is_surrogate, pair_scalar};
use std::marker::PhantomData;
use vstd::prelude::*;

verus! {

/// The outcome of one attempt to read a code unit: its two bytes in stream
/// order, or the failure.
pub type RawRead<E> = Result<(u8, u8), IoFailure<E>>;

/// Why no scalar value could be produced.
#[derive(Debug, PartialEq, Eq)]
pub enum DecodeError<E> {
    /// A read failed for good.
    Io(IoFailure<E>),
    /// The two code units, in the order read, do not form a surrogate pair.
    InvalidSurrogate(u16, u16),
}

/// The answer of the code-unit reader to one read outcome: a unit as it comes,
/// another read after an interruption, the end where the source is exhausted,
/// the failure otherwise.
pub open spec fn shorts_step<E>(order: ByteOrder, event: RawRead<E>) -> Step<
    Option<Result<u16, IoFailure<E>>>,
> {
    match event {
        Ok(raw) => Step::Yield(Some(Ok(word_of(order, raw.0, raw.1)))),
        Err(failure) => match failure.kind {
            FailureKind::Interrupted => Step::Read,
            FailureKind::EndOfStream => Step::Yield(None),
            FailureKind::Other => Step::Yield(Some(Err(failure))),
        },
    }
}

/// The scalar decoder's transition: from the surrogate it holds back (if any)
/// and one read outcome, to the surrogate it holds back next and its answer.
///
/// A unit that is no surrogate is a scalar value by itself. A surrogate waits
/// for the next unit; the two are then a well-formed pair or an error that
/// names both. The end of the stream is a clean end, also while a surrogate
/// waits. An interruption changes nothing.
pub open spec fn chars_step<E>(order: ByteOrder, pending: Option<u16>, event: RawRead<E>) -> (
    Option<u16>,
    Step<Option<Result<char, DecodeError<E>>>>,
) {
    match event {
        Err(failure) => match failure.kind {
            FailureKind::Interrupted => (pending, Step::Read),
            FailureKind::EndOfStream => (None, Step::Yield(None)),
            FailureKind::Other => (None, Step::Yield(Some(Err(DecodeError::Io(failure))))),
        },
        Ok(raw) => {
            let unit = word_of(order, raw.0, raw.1);
            match pending {
                None => if is_surrogate(unit) {
                    (Some(unit), Step::Read)
                } else {
                    (None, Step::Yield(Some(Ok(unit as char))))
                },
                Some(first) => if is_pair(first, unit) {
                    (None, Step::Yield(Some(Ok(pair_scalar(first, unit) as char))))
                } else {
                    (None, Step::Yield(Some(Err(DecodeError::InvalidSurrogate(first, unit)))))
                },
            }
        },
    }
}

/// Runs one transition of the scalar decoder.
fn decode_event<E>(order: ByteOrder, pending: Option<u16>, event: RawRead<E>) -> (r: (
    Option<u16>,
    Step<Option<Result<char, DecodeError<E>>>>,
))
    ensures
        r == chars_step(order, pending, event),
{
    match event {
        Err(failure) => match failure.kind {
            FailureKind::Interrupted => (pending, Step::Read),
            FailureKind::EndOfStream => (None, Step::Yield(None)),
            FailureKind::Other => (None, Step::Yield(Some(Err(DecodeError::Io(failure))))),
        },
        Ok(raw) => {
            let unit = decode_word(order, raw.0, raw.1);
            match pending {
                None => match decode_unit(unit) {
                    Some(c) => (None, Step::Yield(Some(Ok(c)))),
                    None => (Some(unit), Step::Read),
                },
                Some(first) => match decode_pair(first, unit) {
                    Some(c) => (None, Step::Yield(Some(Ok(c)))),
                    None => (
                        None,
                        Step::Yield(Some(Err(DecodeError::InvalidSurrogate(first, unit)))),
                    ),
                },
            }
        },
    }
}

/// Reader of code units in the byte order `T`, owning its source `R`.
#[derive(Debug)]
pub struct Shorts<T, R> {
    order: PhantomData<T>,
    source: R,
}

/// Makes a reader of code units over `source`.
pub fn shorts<T: Endianness, R>(source: R) -> (reader: Shorts<T, R>)
    ensures
        reader.source() == source,
{
    Shorts { order: PhantomData, source }
}

impl<T: Endianness, R> Shorts<T, R> {
    /// The source that this reader owns.
    pub closed spec fn source(&self) -> R {
        self.source
    }

    /// The source, for the driver to read from.
    pub fn get_mut(&mut self) -> (source: &mut R)
        ensures
            *source == old(self).source(),
            final(self).source() == *final(source),
    {
        &mut self.source
    }

    /// Gives back the source.
    pub fn into_inner(self) -> (source: R)
        ensures
            source == self.source(),
    {
        self.source
    }

    /// Takes the outcome of a read and says what comes next.
    pub fn next<E>(&self, event: RawRead<E>) -> (step: Step<Option<Result<u16, IoFailure<E>>>>)
        ensures
            step == shorts_step(T::order(), event),
    {
        match event {
            Ok(raw) => Step::Yield(Some(Ok(decode_word(T::tag(), raw.0, raw.1)))),
            Err(failure) => match failure.kind {
                FailureKind::Interrupted => Step::Read,
                FailureKind::EndOfStream => Step::Yield(None),
                FailureKind::Other => Step::Yield(Some(Err(failure))),
            },
        }
    }
}

/// The surrogate that a decoder holds back until its partner arrives.
#[derive(Debug)]
struct Held {
    unit: Option<u16>,
}

impl Held {
    #[verifier::type_invariant]
    spec fn well_formed(self) -> bool {
        self.unit matches Some(unit) ==> is_surrogate(unit)
    }

    fn nothing() -> (held: Held)
        ensures
            held.unit is None,
    {
        Held { unit: None }
    }

    /// Runs one transition of the scalar decoder on the unit held back.
    fn advance<E>(&mut self, order: ByteOrder, event: RawRead<E>) -> (step: Step<
        Option<Result<char, DecodeError<E>>>,
    >)
        ensures
            (final(self).unit, step) == chars_step(order, old(self).unit, event),
            final(self).unit matches Some(unit) ==> is_surrogate(unit),
    {
        proof {
            use_type_invariant(&*self);
        }
        let (unit, step) = decode_event(order, self.unit, event);
        self.unit = unit;
        step
    }
}

/// Decoder of scalar values from code units in the byte order `T`, owning its
/// source `R`.
#[derive(Debug)]
pub struct Chars<T, R> {
    order: PhantomData<T>,
    source: R,
    held: Held,
}

/// Makes a decoder of scalar values over `source`.
pub fn utf16_chars<T: Endianness, R>(source: R) -> (decoder: Chars<T, R>)
    ensures
        decoder.source() == source,
        decoder.pending() is None,
{
    Chars { order: PhantomData, source, held: Held::nothing() }
}

impl<T: Endianness, R> Chars<T, R> {
    /// The source that this decoder owns.
    pub closed spec fn source(&self) -> R {
        self.source
    }

    /// The surrogate that was read and waits for its partner, if any.
    pub closed spec fn pending(&self) -> Option<u16> {
        self.held.unit
    }

    /// The source, for the driver to read from.
    pub fn get_mut(&mut self) -> (source: &mut R)
        ensures
            *source == old(self).source(),
            final(self).source() == *final(source),
            final(self).pending() == old(self).pending(),
    {
        &mut self.source
    }

    /// Gives back the source. A surrogate that waits is dropped.
    pub fn into_inner(self) -> (source: R)
        ensures
            source == self.source(),
    {
        self.source
    }

    /// Takes the outcome of a read and says what comes next.
    ///
    /// No scalar value comes out of half a pair: a unit that waits is always a
    /// surrogate, and it leaves only as part of a well-formed pair, in an
    /// error, or dropped at the end of the stream.
    pub fn next<E>(&mut self, event: RawRead<E>) -> (step: Step<
        Option<Result<char, DecodeError<E>>>,
    >)
        ensures
            (final(self).pending(), step) == chars_step(T::order(), old(self).pending(), event),
            final(self).source() == old(self).source(),
            final(self).pending() matches Some(unit) ==> is_surrogate(unit),
    {
        self.held.advance(T::tag(), event)
    }
}

/// What a line reader holds between two events.
pub struct LineView {
    /// The surrogate that waits for its partner, if any.
    pub pending: Option<u16>,
    /// The scalar values gathered for the line so far.
    pub line: Seq<char>,
}

impl LineView {
    /// The state before anything was read.
    pub open spec fn fresh() -> LineView {
        LineView { pending: None, line: Seq::empty() }
    }
}

/// The line gatherer's transition. Scalar values are gathered up to and
/// including the first line feed, or up to the end of the stream; a decoding
/// error ends the gathering at once. The answer holds what was gathered and
/// how the gathering ended.
pub open spec fn line_step<E>(order: ByteOrder, state: LineView, event: RawRead<E>) -> (
    LineView,
    Step<(Seq<char>, Result<(), DecodeError<E>>)>,
) {
    let (pending, decoded) = chars_step(order, state.pending, event);
    match decoded {
        Step::Read => (LineView { pending, line: state.line }, Step::Read),
        Step::Yield(None) => (LineView::fresh(), Step::Yield((state.line, Ok(())))),
        Step::Yield(Some(Err(error))) => (LineView::fresh(), Step::Yield((state.line, Err(error)))),
        Step::Yield(Some(Ok(c))) => if c == '\n' {
            (LineView::fresh(), Step::Yield((state.line.push(c), Ok(()))))
        } else {
            (LineView { pending, line: state.line.push(c) }, Step::Read)
        },
    }
}

/// `line` without its terminator: a final line feed is cut off, and with it
/// the carriage return before it, if there is one.
pub open spec fn without_terminator(line: Seq<char>) -> Seq<char> {
    if line.len() > 0 && line.last() == '\n' {
        let rest = line.drop_last();
        if rest.len() > 0 && rest.last() == '\r' {
            rest.drop_last()
        } else {
            rest
        }
    } else {
        line
    }
}

/// The line iterator's transition: the line gatherer's, with the terminator
/// cut off each line, and the end of the stream where nothing was gathered.
pub open spec fn lines_step<E>(order: ByteOrder, state: LineView, event: RawRead<E>) -> (
    LineView,
    Step<Option<Result<Seq<char>, DecodeError<E>>>>,
) {
    let (next, gathered) = line_step(order, state, event);
    (
        next,
        match gathered {
            Step::Read => Step::Read,
            Step::Yield((line, Ok(()))) => if line.len() == 0 {
                Step::Yield(None)
            } else {
                Step::Yield(Some(Ok(without_terminator(line))))
            },
            Step::Yield((_, Err(error))) => Step::Yield(Some(Err(error))),
        },
    )
}

/// `String::push` of std. Trusted, as documented: the scalar value is appended
/// to the end of the string.
pub assume_specification[ String::push ](text: &mut String, c: char)
    ensures
        final(text)@ == old(text)@.push(c),
;

/// Appends the scalar values of `chars` to `text`.
fn append_chars(text: &mut String, chars: &Vec<char>)
    ensures
        final(text)@ == old(text)@ + chars@,
{
    let mut i: usize = 0;
    while i < chars.len()
        invariant
            i <= chars.len(),
            text@ == old(text)@ + chars@.take(i as int),
        decreases chars.len() - i,
    {
        text.push(chars[i]);
        i = i + 1;
        assert(text@ =~= old(text)@ + chars@.take(i as int));
    }
    assert(chars@.take(chars.len() as int) =~= chars@);
}

/// Cuts the terminator off a gathered line.
fn strip_terminator(line: &mut Vec<char>)
    ensures
        final(line)@ == without_terminator(old(line)@),
{
    let n: usize = line.len();
    if n > 0 && line[n - 1] == '\n' {
        line.pop();
        if n > 1 && line[n - 2] == '\r' {
            line.pop();
        }
    }
}

/// The scalar values gathered for a line that is not over: none is a line
/// feed.
#[derive(Debug)]
struct Gathered {
    chars: Vec<char>,
}

impl Gathered {
    #[verifier::type_invariant]
    spec fn well_formed(self) -> bool {
        !self.chars@.contains('\n')
    }

    fn nothing() -> (gathered: Gathered)
        ensures
            gathered.chars@ == Seq::<char>::empty(),
    {
        Gathered { chars: Vec::new() }
    }

    fn with(self, c: char) -> (gathered: Gathered)
        requires
            c != '\n',
        ensures
            gathered.chars@ == self.chars@.push(c),
    {
        proof {
            use_type_invariant(&self);
            let grown = self.chars@.push(c);
            assert forall|i: int| 0 <= i < grown.len() implies grown[i] != '\n' by {
                if i < self.chars@.len() {
                    assert(self.chars@.contains(self.chars@[i]));
                }
            }
        }
        let mut chars = self.chars;
        chars.push(c);
        Gathered { chars }
    }

    fn into_chars(self) -> (chars: Vec<char>)
        ensures
            chars@ == self.chars@,
            !chars@.contains('\n'),
    {
        proof {
            use_type_invariant(&self);
        }
        self.chars
    }
}

/// The progress of reading one line: the scalar values gathered so far, and
/// the surrogate that waits for its partner.
#[derive(Debug)]
pub struct LineReader {
    held: Held,
    line: Gathered,
}

impl View for LineReader {
    type V = LineView;

    closed spec fn view(&self) -> LineView {
        LineView { pending: self.held.unit, line: self.line.chars@ }
    }
}

impl LineReader {
    /// A reader that has gathered nothing yet.
    pub fn new() -> (reader: LineReader)
        ensures
            reader@ == LineView::fresh(),
    {
        LineReader { held: Held::nothing(), line: Gathered::nothing() }
    }

    /// Runs one transition of the line gatherer; a line that is over is
    /// handed out and the reader is fresh again.
    fn gather<E>(&mut self, order: ByteOrder, event: RawRead<E>) -> (step: Step<
        (Vec<char>, Result<(), DecodeError<E>>),
    >)
        ensures
            final(self)@ == line_step(order, old(self)@, event).0,
            match line_step(order, old(self)@, event).1 {
                Step::Read => step is Read,
                Step::Yield((line, end)) => step matches Step::Yield((chars, ended))
                    && chars@ == line && ended == end,
            },
            !old(self)@.line.contains('\n'),
    {
        proof {
            use_type_invariant(&self.line);
        }
        match self.held.advance(order, event) {
            Step::Read => Step::Read,
            Step::Yield(item) => {
                let mut line = Gathered::nothing();
                core::mem::swap(&mut line, &mut self.line);
                match item {
                    None => Step::Yield((line.into_chars(), Ok(()))),
                    Some(Err(error)) => Step::Yield((line.into_chars(), Err(error))),
                    Some(Ok(c)) => {
                        if c == '\n' {
                            let mut chars = line.into_chars();
                            chars.push(c);
                            Step::Yield((chars, Ok(())))
                        } else {
                            self.line = line.with(c);
                            Step::Read
                        }
                    },
                }
            },
        }
    }

    /// Takes the outcome of a read while a line is read into `buf`.
    ///
    /// While the line goes on, `buf` is left as it is. When the line is over
    /// (after its line feed, at the end of the stream, or on an error), what
    /// was gathered is appended to `buf`, terminator included, and the reader
    /// is fresh again. The count is that of the scalar values appended.
    pub fn read_line<E>(&mut self, order: ByteOrder, buf: &mut String, event: RawRead<E>) -> (step:
        Step<Result<usize, DecodeError<E>>>)
        ensures
            final(self)@ == line_step(order, old(self)@, event).0,
            match line_step(order, old(self)@, event).1 {
                Step::Read => step is Read && final(buf)@ == old(buf)@,
                Step::Yield((line, end)) => final(buf)@ == old(buf)@ + line && step == Step::Yield(
                    match end {
                        Ok(()) => Ok::<usize, DecodeError<E>>(line.len() as usize),
                        Err(error) => Err(error),
                    },
                ),
            },
    {
        match self.gather(order, event) {
            Step::Read => Step::Read,
            Step::Yield((line, end)) => {
                append_chars(buf, &line);
                match end {
                    Ok(()) => Step::Yield(Ok(line.len())),
                    Err(error) => Step::Yield(Err(error)),
                }
            },
        }
    }
}

/// Takes the outcome of a read, in the byte order `T`, while a line is read
/// into `buf`: see [`LineReader::read_line`].
pub fn read_utf16_line<T: Endianness, E>(
    reader: &mut LineReader,
    buf: &mut String,
    event: RawRead<E>,
) -> (step: Step<Result<usize, DecodeError<E>>>)
    ensures
        final(reader)@ == line_step(T::order(), old(reader)@, event).0,
        match line_step(T::order(), old(reader)@, event).1 {
            Step::Read => step is Read && final(buf)@ == old(buf)@,
            Step::Yield((line, end)) => final(buf)@ == old(buf)@ + line && step == Step::Yield(
                match end {
                    Ok(()) => Ok::<usize, DecodeError<E>>(line.len() as usize),
                    Err(error) => Err(error),
                },
            ),
        },
{
    reader.read_line(T::tag(), buf, event)
}

/// What a step of the line iterator says, with each line as its scalar values.
pub open spec fn yielded<E>(step: Step<Option<Result<String, DecodeError<E>>>>) -> Step<
    Option<Result<Seq<char>, DecodeError<E>>>,
> {
    match step {
        Step::Read => Step::Read,
        Step::Yield(None) => Step::Yield(None),
        Step::Yield(Some(Ok(text))) => Step::Yield(Some(Ok(text@))),
        Step::Yield(Some(Err(error))) => Step::Yield(Some(Err(error))),
    }
}

/// Iterator over the lines of a UTF-16 stream in the byte order `T`, owning
/// its source `R`.
#[derive(Debug)]
pub struct Lines<T, R> {
    order: PhantomData<T>,
    source: R,
    reader: LineReader,
}

/// Makes an iterator over the lines of `source`.
pub fn utf16_lines<T: Endianness, R>(source: R) -> (lines: Lines<T, R>)
    ensures
        lines.source() == source,
        lines.state() == LineView::fresh(),
{
    Lines { order: PhantomData, source, reader: LineReader::new() }
}

impl<T: Endianness, R> Lines<T, R> {
    /// The source that this iterator owns.
    pub closed spec fn source(&self) -> R {
        self.source
    }

    /// What was gathered of the line that is being read.
    pub closed spec fn state(&self) -> LineView {
        self.reader@
    }

    /// The source, for the driver to read from.
    pub fn get_mut(&mut self) -> (source: &mut R)
        ensures
            *source == old(self).source(),
            final(self).source() == *final(source),
            final(self).state() == old(self).state(),
    {
        &mut self.source
    }

    /// Gives back the source. What was gathered of an unfinished line is
    /// dropped.
    pub fn into_inner(self) -> (source: R)
        ensures
            source == self.source(),
    {
        self.source
    }

    /// Takes the outcome of a read and says what comes next.
    ///
    /// A line comes without its terminator and holds no line feed. What was
    /// gathered when the stream ends is the last line; the end follows where
    /// nothing was gathered. An error drops what was gathered.
    pub fn next<E>(&mut self, event: RawRead<E>) -> (step: Step<
        Option<Result<String, DecodeError<E>>>,
    >)
        ensures
            (final(self).state(), yielded(step)) == lines_step(
                T::order(),
                old(self).state(),
                event,
            ),
            final(self).source() == old(self).source(),
            step matches Step::Yield(Some(Ok(text))) ==> !text@.contains('\n'),
    {
        match self.reader.gather(T::tag(), event) {
            Step::Read => Step::Read,
            Step::Yield((line, Err(error))) => Step::Yield(Some(Err(error))),
            Step::Yield((line, Ok(()))) => {
                if line.len() == 0 {
                    Step::Yield(None)
                } else {
                    let mut line = line;
                    let ghost gathered = line@;
                    strip_terminator(&mut line);
                    let mut text = String::new();
                    append_chars(&mut text, &line);
                    proof {
                        assert(text@ =~= without_terminator(gathered));
                        lemma_without_terminator_has_no_line_feed(gathered);
                    }
                    Step::Yield(Some(Ok(text)))
                }
            },
        }
    }
}

/// A line whose only line feed, if any, is its last scalar value holds none
/// once its terminator is cut off.
pub proof fn lemma_without_terminator_has_no_line_feed(line: Seq<char>)
    requires
        forall|i: int| 0 <= i < line.len() - 1 ==> line[i] != '\n',
    ensures
        !without_terminator(line).contains('\n'),
{
    let cut = without_terminator(line);
    assert forall|i: int| 0 <= i < cut.len() implies cut[i] != '\n' by {
        assert(cut[i] == line[i]);
    }
}

} // verus!
