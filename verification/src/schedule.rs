//! The blocking pool's reschedule capability: routes a finished blocking
//! task's wake back to the scheduler that issued the work.

use vstd::prelude::*;
use crate::handle::Handle;
use crate::scheduler;
use crate::task::Schedule;

verus! {

/// Reschedule capability bound to a specific scheduler handle; owned by
/// each task submitted to the blocking pool, and invoked from the worker
/// thread when the task's result is ready.
pub struct BlockingSchedule {
    pub handle: Handle,
}

impl BlockingSchedule {
    /// Binds the capability to the issuing scheduler's handle.
    pub fn new(handle: Handle) -> (s: BlockingSchedule)
        ensures
            s.handle == handle,
    {
        match &handle.inner {
            scheduler::Handle::CurrentThread(_) => {},
        }
        BlockingSchedule { handle }
    }
}

/// Completion wakes from a blocking worker go through the bound handle's
/// injection queue, exactly as any other remote wake.
impl Schedule for BlockingSchedule {
    open spec fn pending(&self) -> Seq<u64> {
        match self.handle.inner {
            scheduler::Handle::CurrentThread(h) => h.injected@,
        }
    }

    fn schedule(&mut self, task_id: u64) {
        match &mut self.handle.inner {
            scheduler::Handle::CurrentThread(h) => h.schedule(task_id),
        }
    }
}

} // verus!
