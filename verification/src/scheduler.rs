//! The scheduler facade: a closed set of executor strategies behind one
//! interface, so a multi-thread variant can be added later without changing
//! runtime-facing code.

use vstd::prelude::*;
use crate::current_thread;
use crate::current_thread::{CurrentThread, DriveSession, ReentrancyError, SchedulerCore};

verus! {

/// The runtime scheduler: a tagged choice of executor strategy. This
/// revision supports exactly one, the current-thread executor.
pub enum Scheduler {
    /// Execute all tasks on the current thread.
    CurrentThread(CurrentThread),
}

/// Cross-thread handle to whichever scheduler variant a runtime built.
pub enum Handle {
    CurrentThread(current_thread::Handle),
}

impl Scheduler {
    /// The queue core currently resting in the scheduler's ownership cell;
    /// absent while a drive holds it.
    pub open spec fn core_contents(self) -> Option<SchedulerCore> {
        match self {
            Scheduler::CurrentThread(ct) => ct.core.contents(),
        }
    }

    /// Builds the current-thread scheduler variant. The fresh handle is
    /// distributed by the runtime that owns the pool; this facade-level
    /// constructor keeps only the scheduler.
    pub fn build_current_threaded_scheduler() -> (s: Scheduler)
        ensures
            s.core_contents() matches Some(c) && c.tasks@ == Seq::<u64>::empty(),
    {
        let (scheduler, _) = CurrentThread::new();
        Scheduler::CurrentThread(scheduler)
    }

    /// Begins a drive on whichever variant this is; fails with the
    /// reentrancy error exactly when a drive is already active.
    pub fn begin_drive(&mut self) -> (r: Result<DriveSession, ReentrancyError>)
        ensures
            r is Ok <==> old(self).core_contents() is Some,
            r is Err <==> old(self).core_contents() is None,
            r matches Ok(s) ==> {
                &&& Some(s.core) == old(self).core_contents()
                &&& !s.completed
            },
            final(self).core_contents() is None,
    {
        match self {
            Scheduler::CurrentThread(ct) => ct.begin_drive(),
        }
    }

    /// Ends a drive, handing the queue core back.
    pub fn finish_drive(&mut self, session: DriveSession)
        requires
            session.completed,
            old(self).core_contents() is None,
        ensures
            final(self).core_contents() == Some(session.core),
    {
        match self {
            Scheduler::CurrentThread(ct) => ct.finish_drive(session),
        }
    }
}

} // verus!
