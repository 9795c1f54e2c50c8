//! The current-thread scheduler: a FIFO ready queue owned by exactly one
//! driving thread at a time, and a handle remote wakers inject woken tasks
//! through.

use vstd::prelude::*;
use std::collections::VecDeque;
use crate::atomic_cell::AtomicCell;
use crate::task::{Notified, Schedule, Task};

verus! {

/// Initial ready-queue capacity.
pub const INITIAL_CAPACITY: usize = 64;

/// The scheduler's ready queue. Held inside the ownership cell; whoever has
/// checked it out is the one thread allowed to poll tasks.
pub struct SchedulerCore {
    /// Identities of runnable tasks, polled in FIFO order.
    pub tasks: VecDeque<u64>,
}

/// Handle to the scheduler, shared with every waker derived from it: wakes
/// arriving from other threads (a blocking worker reporting completion
/// included) are enqueued here, without the queue core's current owner
/// having to cooperate beyond eventually draining them.
pub struct Handle {
    /// Tasks woken remotely, awaiting transfer to the ready queue in wake
    /// order.
    pub injected: VecDeque<u64>,
}

/// The reentrancy failure: `block_on` was called on a scheduler whose queue
/// core is already checked out by an active drive on some thread, this one
/// included. Reported explicitly rather than deadlocking or interleaving.
#[derive(Debug)]
pub struct ReentrancyError;

impl Handle {
    pub fn new() -> (h: Handle)
        ensures
            h.injected@ == Seq::<u64>::empty(),
    {
        Handle { injected: VecDeque::new() }
    }

    /// The scheduler's wake path: enqueues `task` behind the handle and
    /// certifies it runnable. This is the only producer of [`Notified`]
    /// values for this scheduler, so holding one entitles the receiving
    /// thread to poll the task.
    pub fn wake<P: Schedule>(&mut self, task: Task<P>) -> (n: Notified<P>)
        requires
            old(self).injected@.len() < usize::MAX,
        ensures
            final(self).injected@ == old(self).injected@.push(task.id),
            n.task() == task,
    {
        let id = task.id;
        self.injected.push_back(id);
        Notified::notify(task)
    }
}

/// Current-thread resubmission: a task woken while its scheduler runs on
/// this very thread still goes through the handle's injection queue.
impl Schedule for Handle {
    open spec fn pending(&self) -> Seq<u64> {
        self.injected@
    }

    fn schedule(&mut self, task_id: u64) {
        self.injected.push_back(task_id);
    }
}

/// The cooperative, single-driver executor. The ready-queue core lives in
/// the ownership cell; an empty cell means some drive currently holds the
/// core, and the cell's exactly-once guarantee is what makes "at most one
/// thread drives this scheduler" hold by construction.
pub struct CurrentThread {
    /// Holds the queue core whenever no drive is active.
    pub core: AtomicCell<SchedulerCore>,
}

/// One `block_on`: exclusive custody of the queue core while a root future
/// is driven to completion, plus the bookkeeping that keeps the drive
/// honest — the root future is polled only until it completes, and the
/// drive yields to externally delivered wakes every `event_interval`
/// processed queue items.
pub struct DriveSession {
    /// The checked-out ready queue.
    pub core: SchedulerCore,
    /// Set when the root future returns its output; it is never polled
    /// again, and the drive returns that output exactly once.
    pub completed: bool,
    /// Ready-queue items processed since external wakes were last drained.
    pub polls_since_check: u32,
}

impl CurrentThread {
    /// Constructs an empty scheduler and the fresh handle to distribute to
    /// wakers before any task runs.
    pub fn new() -> (r: (CurrentThread, Handle))
        ensures
            r.0.core.contents() matches Some(c) && c.tasks@ == Seq::<u64>::empty(),
            r.1.injected@ == Seq::<u64>::empty(),
    {
        let core = AtomicCell::new(
            Some(Box::new(SchedulerCore { tasks: VecDeque::with_capacity(INITIAL_CAPACITY) })),
        );
        let handle = Handle::new();
        (CurrentThread { core }, handle)
    }

    /// Begins a drive: takes exclusive ownership of the queue core through
    /// the ownership cell. Fails with the reentrancy error exactly when a
    /// drive is already active — the cell is empty — and never blocks.
    pub fn begin_drive(&mut self) -> (r: Result<DriveSession, ReentrancyError>)
        ensures
            r is Ok <==> old(self).core.contents() is Some,
            r is Err <==> old(self).core.contents() is None,
            r matches Ok(s) ==> {
                &&& Some(s.core) == old(self).core.contents()
                &&& !s.completed
                &&& s.polls_since_check == 0
            },
            final(self).core.contents() is None,
    {
        match self.core.take() {
            Some(boxed) => Ok(
                DriveSession { core: *boxed, completed: false, polls_since_check: 0 },
            ),
            None => Err(ReentrancyError),
        }
    }

    /// Ends a drive, returning the queue core to the cell. Requires the
    /// root future to have completed — a drive delivers its output exactly
    /// once — and that this drive is still the core's holder.
    pub fn finish_drive(&mut self, session: DriveSession)
        requires
            session.completed,
            old(self).core.contents() is None,
        ensures
            final(self).core.contents() == Some(session.core),
    {
        self.core.set(Box::new(session.core));
    }
}

impl DriveSession {
    /// Whether the root future may be polled: exactly until it completes.
    pub fn may_poll_root(&self) -> (b: bool)
        ensures
            b == !self.completed,
    {
        !self.completed
    }

    /// Records the root future's completion. Callable at most once per
    /// drive: afterwards the root is never polled again.
    pub fn root_ready(&mut self)
        requires
            !old(self).completed,
        ensures
            final(self).completed,
            final(self).core == old(self).core,
            final(self).polls_since_check == old(self).polls_since_check,
    {
        self.completed = true;
    }

    /// Pops the next runnable task, in FIFO wake order, counting it against
    /// the event interval.
    pub fn next_task(&mut self) -> (t: Option<u64>)
        requires
            old(self).polls_since_check < u32::MAX,
        ensures
            final(self).completed == old(self).completed,
            t matches Some(id) ==> {
                &&& old(self).core.tasks@.len() > 0
                &&& id == old(self).core.tasks@[0]
                &&& final(self).core.tasks@ == old(self).core.tasks@.subrange(
                    1,
                    old(self).core.tasks@.len() as int,
                )
                &&& final(self).polls_since_check == old(self).polls_since_check + 1
            },
            t is None ==> {
                &&& old(self).core.tasks@.len() == 0
                &&& final(self).core.tasks@ == old(self).core.tasks@
                &&& final(self).polls_since_check == old(self).polls_since_check
            },
    {
        match self.core.tasks.pop_front() {
            Some(id) => {
                self.polls_since_check = self.polls_since_check + 1;
                Some(id)
            },
            None => None,
        }
    }

    /// A task woken locally during the drive rejoins the ready queue at the
    /// back, keeping FIFO order among pending wakes.
    pub fn reschedule(&mut self, task_id: u64)
        requires
            old(self).core.tasks@.len() < usize::MAX,
        ensures
            final(self).core.tasks@ == old(self).core.tasks@.push(task_id),
            final(self).completed == old(self).completed,
            final(self).polls_since_check == old(self).polls_since_check,
    {
        self.core.tasks.push_back(task_id);
    }

    /// Whether the drive owes a check for externally delivered wakes: after
    /// `event_interval` queue items, so a queue kept non-empty by
    /// self-rescheduling tasks cannot starve external notifications.
    pub fn should_check_external(&self, event_interval: u32) -> (b: bool)
        ensures
            b == (self.polls_since_check >= event_interval),
    {
        self.polls_since_check >= event_interval
    }

    /// Drains the wakes remote threads delivered through the handle into
    /// the ready queue, behind the tasks already there and in wake order,
    /// and resets the event-interval count.
    pub fn check_external(&mut self, handle: &mut Handle)
        requires
            old(self).core.tasks@.len() + old(handle).injected@.len() <= usize::MAX,
        ensures
            final(self).core.tasks@ == old(self).core.tasks@ + old(handle).injected@,
            final(handle).injected@ == Seq::<u64>::empty(),
            final(self).completed == old(self).completed,
            final(self).polls_since_check == 0,
    {
        self.core.tasks.append(&mut handle.injected);
        self.polls_since_check = 0;
    }
}

} // verus!
