//! An optional reader/writer: with nothing inside, reads and writes never
//! complete, while flushing and shutting down succeed at once.
use vstd::prelude::*;

verus! {

/// An optional I/O object.
pub struct OptionIo<T>(pub Option<T>);

/// The operations of an asynchronous reader/writer.
#[derive(Debug, Clone, Copy, PartialEq, Eq, Structural)]
pub enum IoOperation {
    Read,
    Write,
    WriteVectored,
    Flush,
    Shutdown,
}

/// How an operation on an empty `OptionIo` is answered.
#[derive(Debug, Clone, Copy, PartialEq, Eq, Structural)]
pub enum IdlePoll {
    /// Not ready, and never will be.
    Pending,
    /// Done, successfully.
    ReadyOk,
}

impl<T> Default for OptionIo<T> {
    fn default() -> (io: Self)
        ensures
            io.0 is None,
    {
        OptionIo(None)
    }
}

impl<T> vstd::std_specs::convert::FromSpecImpl<Option<T>> for OptionIo<T> {
    open spec fn obeys_from_spec() -> bool {
        true
    }

    open spec fn from_spec(v: Option<T>) -> Self {
        OptionIo(v)
    }
}

impl<T> From<Option<T>> for OptionIo<T> {
    fn from(inner: Option<T>) -> (io: Self) {
        OptionIo(inner)
    }
}

impl<T> OptionIo<T> {
    /// The optional object inside, to operate on.
    pub fn project(&mut self) -> (inner: &mut Option<T>)
        ensures
            *inner == old(self).0,
            final(self).0 == *final(inner),
    {
        &mut self.0
    }
}

/// How `op` is answered when there is no object: reads and writes stay
/// pending, flushing and shutting down succeed.
pub fn idle_poll(op: IoOperation) -> (answer: IdlePoll)
    ensures
        answer == (if op == IoOperation::Flush || op == IoOperation::Shutdown {
            IdlePoll::ReadyOk
        } else {
            IdlePoll::Pending
        }),
{
    match op {
        IoOperation::Flush | IoOperation::Shutdown => IdlePoll::ReadyOk,
        _ => IdlePoll::Pending,
    }
}

} // verus!
