//! The runtime's cross-thread handle.

use vstd::prelude::*;
use crate::scheduler;

verus! {

/// Reference to the scheduler-shared state, held by every waker and every
/// blocking-pool schedule derived from the runtime.
pub struct Handle {
    pub inner: scheduler::Handle,
}

impl Handle {
    pub fn new(inner: scheduler::Handle) -> (h: Handle)
        ensures
            h.inner == inner,
    {
        Handle { inner }
    }
}

} // verus!
