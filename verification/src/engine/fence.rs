//! The fence that tells the CPU when a frame's GPU work is done.

use vstd::prelude::*;

verus! {

/// What the CPU knows of a fence.
#[derive(Clone, Copy, Debug, PartialEq, Eq, Structural)]
pub enum FenceStatus {
    /// The fence is signaled: no submission is waiting to signal it.
    Signaled,
    /// The fence was reset and no submission has been handed it yet.
    Unsignaled,
    /// A submission that will signal the fence is with the GPU.
    Pending,
}

/// A fence, as far as the CPU follows it.
#[derive(Clone, Copy, Debug, PartialEq, Eq, Structural)]
pub struct Fence {
    pub status: FenceStatus,
}

impl Fence {
    /// A new fence. It is created signaled, so that the first wait on it returns
    /// at once.
    pub fn new() -> (fence: Fence)
        ensures
            fence.status == FenceStatus::Signaled,
    {
        Fence { status: FenceStatus::Signaled }
    }

    /// Whether the fence is to be created in the signaled state.
    pub fn created_signaled(&self) -> (signaled: bool)
        ensures
            signaled == (self.status == FenceStatus::Signaled),
    {
        match self.status {
            FenceStatus::Signaled => true,
            _ => false,
        }
    }
}

} // verus!
