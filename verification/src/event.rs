//! What the caller reports after each raw I/O attempt, and what it is told to
//! do next.

use vstd::prelude::*;

verus! {

/// The classes of I/O failure that the codec tells apart.
#[derive(Clone, Copy, Debug, PartialEq, Eq, Structural)]
pub enum FailureKind {
    /// A transient interruption: the same operation may be tried again.
    Interrupted,
    /// The source had no more bytes to give.
    EndOfStream,
    /// Any other, terminal failure.
    Other,
}

/// A failed raw read or write: its class, and the underlying error value,
/// which the codec carries along and never inspects.
#[derive(Debug, PartialEq, Eq)]
pub struct IoFailure<E> {
    /// The class of the failure: all that the codec goes by.
    pub kind: FailureKind,
    /// The error as the driver got it.
    pub cause: E,
}

/// What a reading state machine asks of its driver after an event.
#[derive(Debug, PartialEq, Eq)]
pub enum Step<T> {
    /// The next item is ready.
    Yield(T),
    /// Read two more bytes and report how that went.
    Read,
}

/// What a writing state machine asks of its driver.
#[derive(Debug, PartialEq, Eq)]
pub enum WriteStep<M, T> {
    /// Write these two bytes, in this order, then resume the machine `M`
    /// with the outcome.
    Write((u8, u8), M),
    /// The operation is over, with this result.
    Done(T),
}

/// What the write-everything state machine asks of its driver.
#[derive(Debug, PartialEq, Eq)]
pub enum PassStep<M, T> {
    /// Make one best-effort pass over the machine's remaining units, then
    /// resume the machine `M` with the result of the pass.
    Pass(M),
    /// The operation is over, with this result.
    Done(T),
}

} // verus!
