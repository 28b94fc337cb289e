//! What a suspendable computation reports when it is polled.
use vstd::prelude::*;

verus! {

/// What one poll of a suspendable computation reports.
#[derive(Clone, Copy, Debug, PartialEq, Eq, Structural)]
pub enum Poll {
    /// The computation is done.
    Ready,
    /// The computation is not done: the wake handle it was given says when to
    /// poll again.
    Pending,
}

impl Poll {
    /// Whether the computation is done.
    pub fn is_ready(&self) -> (ready: bool)
        ensures
            ready == (*self == Poll::Ready),
    {
        match self {
            Poll::Ready => true,
            Poll::Pending => false,
        }
    }

    /// Whether the computation is not done yet.
    pub fn is_pending(&self) -> (pending: bool)
        ensures
            pending == (*self == Poll::Pending),
    {
        match self {
            Poll::Ready => false,
            Poll::Pending => true,
        }
    }
}

} // verus!
