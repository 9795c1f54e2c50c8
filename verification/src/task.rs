//! The task unit and its wake contract.

use vstd::prelude::*;

verus! {

/// The reschedule capability a waker invokes: one operation, resubmitting a
/// runnable task to its owning queue. Implemented by the current-thread
/// scheduler's handle (resubmission onto its own queue) and by
/// [`crate::schedule::BlockingSchedule`] (a blocking worker reporting back
/// to the scheduler that issued the work).
pub trait Schedule: Sized {
    /// The tasks resubmitted through this capability, in order.
    spec fn pending(&self) -> Seq<u64>;

    /// Resubmits `task_id` to the owning queue.
    fn schedule(&mut self, task_id: u64)
        requires
            old(self).pending().len() < usize::MAX,
        ensures
            final(self).pending() == old(self).pending().push(task_id),
    ;
}

/// A schedulable unit of work: the identity of its body (a future or a
/// boxed synchronous closure held by the embedder) together with the
/// reschedule capability its waker invokes.
pub struct Task<P> {
    /// Identity of the work this unit carries.
    pub id: u64,
    /// Capability used to resubmit the task when it becomes runnable.
    pub schedule: P,
}

impl<P: Schedule> Task<P> {
    pub fn new(id: u64, schedule: P) -> (t: Task<P>)
        ensures
            t.id == id,
            t.schedule == schedule,
    {
        Task { id, schedule }
    }

    /// Resubmits the unit to its owning queue.
    pub fn reschedule(&mut self)
        requires
            old(self).schedule.pending().len() < usize::MAX,
        ensures
            final(self).id == old(self).id,
            final(self).schedule.pending() == old(self).schedule.pending().push(old(self).id),
    {
        let id = self.id;
        self.schedule.schedule(id);
    }
}

/// A task that is runnable now. A value of this type exists only for a task
/// the wake path has just enqueued, so whichever thread receives it is the
/// one entitled to poll the task — the guarantee is carried by construction
/// (only this crate's wake path creates one), not by a blanket assertion.
pub struct Notified<P> {
    task: Task<P>,
}

impl<P: Schedule> Notified<P> {
    /// Marks `task` runnable. Reachable only through the wake path.
    pub(crate) fn notify(task: Task<P>) -> (n: Notified<P>)
        ensures
            n.task() == task,
    {
        Notified { task }
    }

    /// The wrapped task.
    pub closed spec fn task(self) -> Task<P> {
        self.task
    }

    /// Identity of the wrapped task.
    pub open spec fn id(self) -> u64 {
        self.task().id
    }

    /// Consumed by the poll loop: yields the task to the polling thread.
    pub fn into_task(self) -> (t: Task<P>)
        ensures
            t == self.task(),
    {
        self.task
    }
}

} // verus!
