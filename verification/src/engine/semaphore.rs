//! The semaphore that orders two queue operations on the GPU.

use vstd::prelude::*;

verus! {

/// A binary semaphore, as far as the CPU follows it. The CPU never reads a
/// semaphore; it only knows which operations it has queued on it.
#[derive(Clone, Copy, Debug, PartialEq, Eq, Structural)]
pub struct Semaphore {
    /// An operation that signals the semaphore has been queued, and no operation
    /// that waits on it has been queued since.
    pub signal_queued: bool,
}

impl Semaphore {
    /// A new semaphore, with nothing queued on it.
    pub fn new() -> (semaphore: Semaphore)
        ensures
            !semaphore.signal_queued,
    {
        Semaphore { signal_queued: false }
    }
}

} // verus!
