//! Writing: code units and strings as raw two-byte writes.
//!
//! An operation starts with a function that gives the first [`WriteStep`] (or
//! [`PassStep`]). Where that asks for a write, the driver performs it and
//! resumes the machine that came with the request, handing it the outcome. A
//! machine is used up by resuming it, so each request is answered once.

use crate::event::{FailureKind, IoFailure, PassStep, WriteStep};
use crate::order::{bytes_of, encode_word, Endianness};
use crate::utf16::{encode_utf16, lemma_utf16_of_is_empty, utf16_of};
use std::marker::PhantomData;
use vstd::prelude::*;
use vstd::slice::slice_subrange;

verus! {

/// The outcome of one attempt to write a code unit.
pub type RawWrite<E> = Result<(), IoFailure<E>>;

/// Why not every code unit could be written.
#[derive(Debug, PartialEq, Eq)]
pub enum WriteError<E> {
    /// A write failed for good.
    Io(IoFailure<E>),
    /// A pass over the remaining units wrote none of them and reported no
    /// failure: the destination accepts nothing.
    WriteZero,
}

/// How much of a string was written.
#[derive(Debug, PartialEq, Eq)]
pub enum Utf16Written {
    /// Every code unit of the string was written.
    FullyComplete,
    /// A write failed after the first code unit was out. These are the code
    /// units that were not written, the one that failed first.
    Missing(Vec<u16>),
}

/// The byte-order mark, U+FEFF, as the two bytes to write in the byte order
/// `T`.
pub fn write_bom<T: Endianness>() -> (bytes: (u8, u8))
    ensures
        bytes == bytes_of(T::order(), 0xFEFF),
{
    encode_word(T::tag(), 0xFEFF)
}

/// A best-effort pass over a buffer of code units, while the write of one of
/// them is awaited.
#[derive(Debug)]
pub struct ShortsWrite<'a, T> {
    order: PhantomData<T>,
    buf: &'a [u16],
    written: usize,
}

impl<'a, T> ShortsWrite<'a, T> {
    #[verifier::type_invariant]
    spec fn well_formed(self) -> bool {
        self.written < self.buf@.len()
    }
}

/// Starts a best-effort pass over `buf`: nothing to do for an empty buffer,
/// else the write of its first unit.
pub fn write_shorts<'a, T: Endianness, E>(buf: &'a [u16]) -> (step: WriteStep<
    ShortsWrite<'a, T>,
    Result<usize, IoFailure<E>>,
>)
    ensures
        if buf@.len() == 0 {
            step == WriteStep::<ShortsWrite<'a, T>, _>::Done(Ok::<usize, IoFailure<E>>(0))
        } else {
            step matches WriteStep::Write(bytes, pass) && bytes == bytes_of(T::order(), buf@[0])
                && pass.units() == buf@ && pass.written() == 0
        },
{
    if buf.len() == 0 {
        WriteStep::Done(Ok(0))
    } else {
        WriteStep::Write(
            encode_word(T::tag(), buf[0]),
            ShortsWrite { order: PhantomData, buf, written: 0 },
        )
    }
}

impl<'a, T: Endianness> ShortsWrite<'a, T> {
    /// The buffer that this pass goes over.
    pub closed spec fn units(&self) -> Seq<u16> {
        self.buf@
    }

    /// How many units were written; the write of the next one is awaited.
    pub closed spec fn written(&self) -> nat {
        self.written as nat
    }

    /// Takes the outcome of the awaited write.
    ///
    /// After a success the pass goes on to the next unit, or ends with the
    /// count of all units. A failure ends the pass: it is reported if it hit
    /// the first unit; after that it is swallowed, and the pass ends with the
    /// count of the units written before it.
    pub fn resume<E>(self, outcome: RawWrite<E>) -> (step: WriteStep<
        ShortsWrite<'a, T>,
        Result<usize, IoFailure<E>>,
    >)
        ensures
            self.written() < self.units().len(),
            match outcome {
                Ok(()) => if self.written() + 1 == self.units().len() {
                    step == WriteStep::<ShortsWrite<'a, T>, _>::Done(
                        Ok::<usize, IoFailure<E>>(self.units().len() as usize),
                    )
                } else {
                    step matches WriteStep::Write(bytes, pass) && bytes == bytes_of(
                        T::order(),
                        self.units()[(self.written() + 1) as int],
                    ) && pass.units() == self.units() && pass.written() == self.written() + 1
                },
                Err(failure) => if self.written() == 0 {
                    step == WriteStep::<ShortsWrite<'a, T>, _>::Done(
                        Err::<usize, IoFailure<E>>(failure),
                    )
                } else {
                    step == WriteStep::<ShortsWrite<'a, T>, _>::Done(
                        Ok::<usize, IoFailure<E>>(self.written() as usize),
                    )
                },
            },
    {
        proof {
            use_type_invariant(&self);
        }
        match outcome {
            Ok(()) => {
                let len: usize = self.buf.len();
                let written: usize = self.written + 1;
                if written == len {
                    WriteStep::Done(Ok(written))
                } else {
                    WriteStep::Write(
                        encode_word(T::tag(), self.buf[written]),
                        ShortsWrite { order: PhantomData, buf: self.buf, written },
                    )
                }
            },
            Err(failure) => if self.written == 0 {
                WriteStep::Done(Err(failure))
            } else {
                WriteStep::Done(Ok(self.written))
            },
        }
    }
}

/// The writing of a whole buffer of code units, while a best-effort pass over
/// what is left of it is awaited.
#[derive(Debug)]
pub struct AllShortsWrite<'a, T> {
    order: PhantomData<T>,
    buf: &'a [u16],
    done: usize,
}

impl<'a, T> AllShortsWrite<'a, T> {
    #[verifier::type_invariant]
    spec fn well_formed(self) -> bool {
        self.done < self.buf@.len()
    }
}

/// Starts to write all of `buf`: nothing to do for an empty buffer, else a
/// first pass over all of it.
pub fn write_all_shorts<'a, T: Endianness, E>(buf: &'a [u16]) -> (step: PassStep<
    AllShortsWrite<'a, T>,
    Result<(), WriteError<E>>,
>)
    ensures
        if buf@.len() == 0 {
            step == PassStep::<AllShortsWrite<'a, T>, _>::Done(Ok::<(), WriteError<E>>(()))
        } else {
            step matches PassStep::Pass(all) && all.units() == buf@ && all.done() == 0
        },
{
    if buf.len() == 0 {
        PassStep::Done(Ok(()))
    } else {
        PassStep::Pass(AllShortsWrite { order: PhantomData, buf, done: 0 })
    }
}

impl<'a, T: Endianness> AllShortsWrite<'a, T> {
    /// The buffer that is to be written.
    pub closed spec fn units(&self) -> Seq<u16> {
        self.buf@
    }

    /// How many units earlier passes have written.
    pub closed spec fn done(&self) -> nat {
        self.done as nat
    }

    /// The units that are left to write: never none.
    pub fn remaining(&self) -> (rest: &'a [u16])
        ensures
            rest@ == self.units().skip(self.done() as int),
            rest@.len() > 0,
    {
        proof {
            use_type_invariant(self);
        }
        slice_subrange(self.buf, self.done, self.buf.len())
    }

    /// Starts the awaited pass: a best-effort pass over the units that are
    /// left.
    pub fn pass<E>(&self) -> (step: WriteStep<ShortsWrite<'a, T>, Result<usize, IoFailure<E>>>)
        ensures
            step matches WriteStep::Write(bytes, pass) && bytes == bytes_of(
                T::order(),
                self.units()[self.done() as int],
            ) && pass.units() == self.units().skip(self.done() as int) && pass.written() == 0,
    {
        proof {
            use_type_invariant(self);
        }
        write_shorts::<T, E>(self.remaining())
    }

    /// Takes the result of the awaited pass.
    ///
    /// A pass that wrote nothing and reported no failure ends the writing
    /// with [`WriteError::WriteZero`]. A pass that wrote some units is
    /// followed by a pass over the rest, until none is left. After an
    /// interruption the same pass is made again. Any other failure ends the
    /// writing and is reported.
    pub fn resume<E>(self, pass: Result<usize, IoFailure<E>>) -> (step: PassStep<
        AllShortsWrite<'a, T>,
        Result<(), WriteError<E>>,
    >)
        requires
            pass matches Ok(count) ==> self.done() + count <= self.units().len(),
        ensures
            self.done() < self.units().len(),
            match pass {
                Ok(count) => if count == 0 {
                    step == PassStep::<AllShortsWrite<'a, T>, _>::Done(
                        Err::<(), WriteError<E>>(WriteError::WriteZero),
                    )
                } else if self.done() + count == self.units().len() {
                    step == PassStep::<AllShortsWrite<'a, T>, _>::Done(Ok::<(), WriteError<E>>(()))
                } else {
                    step matches PassStep::Pass(all) && all.units() == self.units() && all.done()
                        == self.done() + count
                },
                Err(failure) => if failure.kind == FailureKind::Interrupted {
                    step matches PassStep::Pass(all) && all.units() == self.units() && all.done()
                        == self.done()
                } else {
                    step == PassStep::<AllShortsWrite<'a, T>, _>::Done(
                        Err::<(), WriteError<E>>(WriteError::Io(failure)),
                    )
                },
            },
    {
        proof {
            use_type_invariant(&self);
        }
        match pass {
            Ok(count) => {
                if count == 0 {
                    PassStep::Done(Err(WriteError::WriteZero))
                } else {
                    let len: usize = self.buf.len();
                    let done: usize = self.done + count;
                    if done == len {
                        PassStep::Done(Ok(()))
                    } else {
                        PassStep::Pass(AllShortsWrite { order: PhantomData, buf: self.buf, done })
                    }
                }
            },
            Err(failure) => match failure.kind {
                FailureKind::Interrupted => PassStep::Pass(self),
                _ => PassStep::Done(Err(WriteError::Io(failure))),
            },
        }
    }
}

/// The writing of a string as UTF-16, while the write of one of its code
/// units is awaited.
#[derive(Debug)]
pub struct StringWrite<T> {
    order: PhantomData<T>,
    units: Vec<u16>,
    written: usize,
}

impl<T> StringWrite<T> {
    #[verifier::type_invariant]
    spec fn well_formed(self) -> bool {
        self.written < self.units@.len()
    }
}

/// Starts to write `text` as UTF-16: nothing to do for the empty string, else
/// the write of its first code unit.
pub fn write_utf16_string<T: Endianness, E>(text: &str) -> (step: WriteStep<
    StringWrite<T>,
    Result<Utf16Written, IoFailure<E>>,
>)
    ensures
        if text@.len() == 0 {
            step == WriteStep::<StringWrite<T>, _>::Done(
                Ok::<Utf16Written, IoFailure<E>>(Utf16Written::FullyComplete),
            )
        } else {
            step matches WriteStep::Write(bytes, string) && bytes == bytes_of(
                T::order(),
                utf16_of(text@)[0],
            ) && string.units() == utf16_of(text@) && string.written() == 0
        },
{
    let units = encode_utf16(text);
    proof {
        lemma_utf16_of_is_empty(text@);
    }
    if units.len() == 0 {
        WriteStep::Done(Ok(Utf16Written::FullyComplete))
    } else {
        WriteStep::Write(
            encode_word(T::tag(), units[0]),
            StringWrite { order: PhantomData, units, written: 0 },
        )
    }
}

impl<T: Endianness> StringWrite<T> {
    /// The code units of the string.
    pub closed spec fn units(&self) -> Seq<u16> {
        self.units@
    }

    /// How many code units were written; the write of the next one is awaited.
    pub closed spec fn written(&self) -> nat {
        self.written as nat
    }

    /// Takes the outcome of the awaited write.
    ///
    /// After a success the writing goes on to the next code unit, or is
    /// complete. A failure ends it: it is reported if it hit the first code
    /// unit; after that it is swallowed, and the code units that were not
    /// written are handed back.
    pub fn resume<E>(self, outcome: RawWrite<E>) -> (step: WriteStep<
        StringWrite<T>,
        Result<Utf16Written, IoFailure<E>>,
    >)
        ensures
            self.written() < self.units().len(),
            match outcome {
                Ok(()) => if self.written() + 1 == self.units().len() {
                    step == WriteStep::<StringWrite<T>, _>::Done(
                        Ok::<Utf16Written, IoFailure<E>>(Utf16Written::FullyComplete),
                    )
                } else {
                    step matches WriteStep::Write(bytes, string) && bytes == bytes_of(
                        T::order(),
                        self.units()[(self.written() + 1) as int],
                    ) && string.units() == self.units() && string.written() == self.written() + 1
                },
                Err(failure) => if self.written() == 0 {
                    step == WriteStep::<StringWrite<T>, _>::Done(
                        Err::<Utf16Written, IoFailure<E>>(failure),
                    )
                } else {
                    step matches WriteStep::Done(Ok(Utf16Written::Missing(rest))) && rest@
                        == self.units().skip(self.written() as int)
                },
            },
    {
        proof {
            use_type_invariant(&self);
        }
        let StringWrite { order, units, written } = self;
        match outcome {
            Ok(()) => {
                let len: usize = units.len();
                let next: usize = written + 1;
                if next == len {
                    WriteStep::Done(Ok(Utf16Written::FullyComplete))
                } else {
                    let bytes = encode_word(T::tag(), units[next]);
                    WriteStep::Write(bytes, StringWrite { order, units, written: next })
                }
            },
            Err(failure) => if written == 0 {
                WriteStep::Done(Err(failure))
            } else {
                let mut units = units;
                let rest = units.split_off(written);
                WriteStep::Done(Ok(Utf16Written::Missing(rest)))
            },
        }
    }
}

} // verus!
