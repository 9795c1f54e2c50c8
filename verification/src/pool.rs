//! The blocking pool: a capacity-bounded set of OS worker threads executing
//! synchronous closures on behalf of the scheduler.
//!
//! The pool's administration — the pending-task queue, the worker table, the
//! counters and the shutdown protocol — is a verified state machine. The
//! embedding application holds it behind its one coarse lock, spawns the OS
//! thread whenever [`Inner::submit`] orders one, runs each worker's loop by
//! calling the worker transitions under that lock, and executes the closures
//! themselves (a panic is caught at the task boundary and reported through
//! [`Inner::task_finished`] like any other completion, so the pool stays
//! serviceable). Tasks are carried here by numeric identity; the closure
//! bodies and join-handle wakers tied to an identity live with the embedder.

use vstd::prelude::*;
use vstd::multiset::Multiset;
use std::collections::VecDeque;
use crate::builder::Builder;
use crate::join::JoinHandle;
use crate::shutdown;
use crate::shutdown::{ShutdownReceiver, ShutdownSender};

verus! {

broadcast use vstd::seq_lib::group_to_multiset_ensures, vstd::multiset::group_multiset_axioms;

/// Default idle-exit timeout for blocking workers, in milliseconds.
pub const KEEP_ALIVE_MS: u64 = 10_000;

/// A sequence of worker indices in strictly increasing order.
pub open spec fn strictly_increasing(s: Seq<usize>) -> bool {
    forall|i: int, j: int| 0 <= i < j < s.len() ==> s[i] < s[j]
}

/// Pool counters, incremented and decremented at each corresponding
/// transition, so an observer reads pool load through plain getters.
pub struct SpawnerMetrics {
    num_threads: usize,
    num_idle_threads: usize,
    queue_depth: usize,
}

impl SpawnerMetrics {
    /// Live worker threads.
    pub closed spec fn spec_num_threads(self) -> usize {
        self.num_threads
    }

    /// Workers waiting for a task.
    pub closed spec fn spec_num_idle_threads(self) -> usize {
        self.num_idle_threads
    }

    /// Tasks waiting in the shared queue.
    pub closed spec fn spec_queue_depth(self) -> usize {
        self.queue_depth
    }

    pub fn new() -> (m: SpawnerMetrics)
        ensures
            m.spec_num_threads() == 0,
            m.spec_num_idle_threads() == 0,
            m.spec_queue_depth() == 0,
    {
        SpawnerMetrics { num_threads: 0, num_idle_threads: 0, queue_depth: 0 }
    }

    pub fn num_threads(&self) -> (n: usize)
        ensures
            n == self.spec_num_threads(),
    {
        self.num_threads
    }

    pub fn num_idle_threads(&self) -> (n: usize)
        ensures
            n == self.spec_num_idle_threads(),
    {
        self.num_idle_threads
    }

    pub fn queue_depth(&self) -> (n: usize)
        ensures
            n == self.spec_queue_depth(),
    {
        self.queue_depth
    }

    pub fn inc_num_threads(&mut self)
        requires
            old(self).spec_num_threads() < usize::MAX,
        ensures
            final(self).spec_num_threads() == old(self).spec_num_threads() + 1,
            final(self).spec_num_idle_threads() == old(self).spec_num_idle_threads(),
            final(self).spec_queue_depth() == old(self).spec_queue_depth(),
    {
        self.num_threads = self.num_threads + 1;
    }

    pub fn dec_num_threads(&mut self)
        requires
            old(self).spec_num_threads() > 0,
        ensures
            final(self).spec_num_threads() == old(self).spec_num_threads() - 1,
            final(self).spec_num_idle_threads() == old(self).spec_num_idle_threads(),
            final(self).spec_queue_depth() == old(self).spec_queue_depth(),
    {
        self.num_threads = self.num_threads - 1;
    }

    pub fn inc_num_idle_threads(&mut self)
        requires
            old(self).spec_num_idle_threads() < usize::MAX,
        ensures
            final(self).spec_num_idle_threads() == old(self).spec_num_idle_threads() + 1,
            final(self).spec_num_threads() == old(self).spec_num_threads(),
            final(self).spec_queue_depth() == old(self).spec_queue_depth(),
    {
        self.num_idle_threads = self.num_idle_threads + 1;
    }

    /// Decrements the idle count, returning the value it had before, as an
    /// atomic fetch-and-subtract would.
    pub fn dec_num_idle_threads(&mut self) -> (prev: usize)
        requires
            old(self).spec_num_idle_threads() > 0,
        ensures
            prev == old(self).spec_num_idle_threads(),
            final(self).spec_num_idle_threads() == old(self).spec_num_idle_threads() - 1,
            final(self).spec_num_threads() == old(self).spec_num_threads(),
            final(self).spec_queue_depth() == old(self).spec_queue_depth(),
    {
        let prev = self.num_idle_threads;
        self.num_idle_threads = self.num_idle_threads - 1;
        prev
    }

    pub fn inc_queue_depth(&mut self)
        requires
            old(self).spec_queue_depth() < usize::MAX,
        ensures
            final(self).spec_queue_depth() == old(self).spec_queue_depth() + 1,
            final(self).spec_num_threads() == old(self).spec_num_threads(),
            final(self).spec_num_idle_threads() == old(self).spec_num_idle_threads(),
    {
        self.queue_depth = self.queue_depth + 1;
    }

    pub fn dec_queue_depth(&mut self)
        requires
            old(self).spec_queue_depth() > 0,
        ensures
            final(self).spec_queue_depth() == old(self).spec_queue_depth() - 1,
            final(self).spec_num_threads() == old(self).spec_num_threads(),
            final(self).spec_num_idle_threads() == old(self).spec_num_idle_threads(),
    {
        self.queue_depth = self.queue_depth - 1;
    }
}

/// The state all workers share, mutated under the pool's one lock.
pub struct Shared {
    /// Pending blocking tasks, serviced in submission order.
    pub queue: VecDeque<u64>,
    /// Wake signals handed out but not yet consumed by an idle worker.
    pub num_notify: u32,
    /// Set once shutdown begins; no worker is spawned and no task accepted
    /// after that.
    pub shutdown: bool,
    /// The controller's own liveness token, cloned once per spawned worker
    /// and dropped when shutdown begins.
    pub shutdown_tx: Option<ShutdownSender>,
    /// The worker that exited most recently; each newly exiting worker joins
    /// the previous one first, so shutdown-time joins are strictly ordered.
    pub last_exiting_thread: Option<usize>,
    /// Indices of the still-live workers, in increasing order; the OS thread
    /// handles keyed by these indices live with the embedder.
    pub worker_threads: Vec<usize>,
    /// The next index to assign; never decreased, so an index is never
    /// reused within one pool.
    pub worker_thread_index: usize,
    /// Every index ever assigned, in order of assignment.
    pub assigned_indices: Ghost<Seq<usize>>,
    /// Identities of every task ever accepted.
    pub submitted: Ghost<Multiset<u64>>,
    /// Identities currently executing on some worker.
    pub running: Ghost<Multiset<u64>>,
    /// Identities whose result has been delivered.
    pub finished: Ghost<Multiset<u64>>,
}

/// The pool body: shared state plus the configuration it was built with.
pub struct Inner {
    pub shared: Shared,
    /// Name label for spawned worker threads.
    pub thread_name: String,
    /// OS stack size override for spawned worker threads.
    pub stack_size: Option<usize>,
    /// Hard cap on concurrently live workers.
    pub thread_cap: usize,
    /// Idle-exit timeout, in milliseconds.
    pub keep_alive_ms: u64,
    /// Observability counters.
    pub metrics: SpawnerMetrics,
}

/// What a submission asks of the caller.
pub enum SpawnAction {
    /// An idle worker was signalled; nothing to spawn.
    Notified,
    /// No worker was idle and the cap leaves room: start an OS worker under
    /// `index`, carrying this liveness token, and run [`Inner`]'s worker
    /// transitions from it.
    NewWorker { index: usize, liveness: ShutdownSender },
    /// No worker was idle and the cap is reached: the task waits in queue
    /// until a worker frees up.
    Queued,
}

/// What an exiting or idle worker does next.
pub enum WorkerOrder {
    /// Execute the given task and report it through [`Inner::task_finished`].
    Run(u64),
    /// Nothing queued and no shutdown: wait up to the keep-alive for a wake.
    Wait,
    /// Shutdown and an empty queue: leave the loop and exit the thread.
    Exit,
}

/// What an idle worker's ended wait turned out to mean.
pub enum WaitVerdict {
    /// A submission's wake signal was consumed: return to the busy loop.
    Notified,
    /// Shutdown began while waiting: the worker left the pool; the embedder
    /// joins the previously exited worker's thread first.
    ShutdownExit(Option<usize>),
    /// The keep-alive elapsed with no work: the worker left the pool.
    TimedOutExit(Option<usize>),
    /// A spurious wake: the worker stays idle and waits again.
    Spurious,
}

impl Inner {
    /// The pool's invariant: counters mirror the queue and worker table, the
    /// live-worker count never exceeds the cap, indices are assigned in
    /// strictly increasing order and never reused, the controller holds its
    /// liveness token until shutdown begins, and every task ever accepted is
    /// queued, running or finished — exactly one of the three, counted with
    /// multiplicity.
    pub open spec fn wf(self) -> bool {
        &&& self.metrics.spec_num_threads() == self.shared.worker_threads@.len()
        &&& self.metrics.spec_num_threads() <= self.thread_cap
        &&& self.metrics.spec_num_idle_threads() <= self.metrics.spec_num_threads()
        &&& self.metrics.spec_queue_depth() == self.shared.queue@.len()
        &&& strictly_increasing(self.shared.assigned_indices@)
        &&& (forall|i: int|
            0 <= i < self.shared.assigned_indices@.len()
                ==> #[trigger] self.shared.assigned_indices@[i] < self.shared.worker_thread_index)
        &&& strictly_increasing(self.shared.worker_threads@)
        &&& (forall|i: int|
            0 <= i < self.shared.worker_threads@.len()
                ==> #[trigger] self.shared.worker_threads@[i] < self.shared.worker_thread_index)
        &&& (!self.shared.shutdown ==> self.shared.shutdown_tx is Some)
        &&& self.shared.submitted@ == self.shared.queue@.to_multiset().add(
            self.shared.running@,
        ).add(self.shared.finished@)
    }

    /// The pool's configuration, unchanged across a transition.
    pub open spec fn config_unchanged(pre: Inner, post: Inner) -> bool {
        &&& post.thread_cap == pre.thread_cap
        &&& post.keep_alive_ms == pre.keep_alive_ms
        &&& post.thread_name == pre.thread_name
        &&& post.stack_size == pre.stack_size
    }

    /// What every accepted submission does: the task joins the queue and
    /// the ghost accounting, in submission order, while the rest of the
    /// shared state stays put except where the verdict says otherwise.
    pub open spec fn submit_accepted(pre: Inner, post: Inner, task_id: u64) -> bool {
        &&& Inner::config_unchanged(pre, post)
        &&& !pre.shared.shutdown
        &&& !post.shared.shutdown
        &&& post.shared.queue@ == pre.shared.queue@.push(task_id)
        &&& post.shared.submitted@ == pre.shared.submitted@.insert(task_id)
        &&& post.shared.running@ == pre.shared.running@
        &&& post.shared.finished@ == pre.shared.finished@
        &&& post.shared.shutdown_tx == pre.shared.shutdown_tx
        &&& post.shared.last_exiting_thread == pre.shared.last_exiting_thread
    }

    /// What each submission verdict means — when it comes and its exact
    /// effect on workers and counters. A worker is started only below the
    /// cap and with nobody idle; at the cap nothing is spawned and the task
    /// only waits; and a started worker's liveness token belongs to the
    /// pool's own shutdown channel.
    pub open spec fn submit_action(pre: Inner, post: Inner, action: SpawnAction) -> bool {
        match action {
            SpawnAction::Notified => {
                &&& pre.metrics.spec_num_idle_threads() > 0
                &&& post.metrics.spec_num_idle_threads() == pre.metrics.spec_num_idle_threads()
                    - 1
                &&& post.shared.num_notify == pre.shared.num_notify + 1
                &&& post.metrics.spec_num_threads() == pre.metrics.spec_num_threads()
                &&& post.shared.worker_threads == pre.shared.worker_threads
                &&& post.shared.assigned_indices == pre.shared.assigned_indices
                &&& post.shared.worker_thread_index == pre.shared.worker_thread_index
            },
            SpawnAction::NewWorker { index, liveness } => {
                &&& pre.metrics.spec_num_idle_threads() == 0
                &&& pre.metrics.spec_num_threads() < pre.thread_cap
                &&& index == pre.shared.worker_thread_index
                &&& post.shared.worker_thread_index == pre.shared.worker_thread_index + 1
                &&& post.shared.worker_threads@ == pre.shared.worker_threads@.push(index)
                &&& post.shared.assigned_indices@ == pre.shared.assigned_indices@.push(index)
                &&& post.metrics.spec_num_threads() == pre.metrics.spec_num_threads() + 1
                &&& post.metrics.spec_num_idle_threads() == 0
                &&& post.shared.num_notify == pre.shared.num_notify
                &&& (pre.shared.shutdown_tx matches Some(tx) && liveness.channel_id()
                    == tx.channel_id())
            },
            SpawnAction::Queued => {
                &&& pre.metrics.spec_num_idle_threads() == 0
                &&& pre.metrics.spec_num_threads() == pre.thread_cap
                &&& post.metrics.spec_num_threads() == pre.metrics.spec_num_threads()
                &&& post.metrics.spec_num_idle_threads() == 0
                &&& post.shared.worker_threads == pre.shared.worker_threads
                &&& post.shared.assigned_indices == pre.shared.assigned_indices
                &&& post.shared.worker_thread_index == pre.shared.worker_thread_index
                &&& post.shared.num_notify == pre.shared.num_notify
            },
        }
    }

    /// Accepts a blocking task, or hands it back once shutdown has begun.
    /// The task is queued in submission order; an idle worker is signalled
    /// if one exists, else a new worker is ordered while the cap allows,
    /// else the task simply waits — capacity exhaustion throttles, it is
    /// not an error.
    pub fn submit(&mut self, task_id: u64) -> (action: Result<SpawnAction, u64>)
        requires
            old(self).wf(),
            old(self).shared.queue@.len() < usize::MAX,
            old(self).shared.worker_thread_index < usize::MAX,
            old(self).shared.num_notify < u32::MAX,
        ensures
            final(self).wf(),
            final(self).thread_cap == old(self).thread_cap,
            final(self).metrics.spec_num_threads() <= final(self).thread_cap,
            action is Err <==> old(self).shared.shutdown,
            action matches Err(t) ==> t == task_id && *final(self) == *old(self),
            action matches Ok(a) ==> Inner::submit_accepted(*old(self), *final(self), task_id)
                && Inner::submit_action(*old(self), *final(self), a),
    {
        if self.shared.shutdown {
            return Err(task_id);
        }
        self.shared.queue.push_back(task_id);
        self.metrics.inc_queue_depth();
        self.shared.submitted = Ghost(self.shared.submitted@.insert(task_id));
        proof {
            assert(self.shared.queue@.to_multiset() =~= old(
                self,
            ).shared.queue@.to_multiset().insert(task_id));
            assert(self.shared.submitted@ =~= self.shared.queue@.to_multiset().add(
                self.shared.running@,
            ).add(self.shared.finished@));
        }
        if self.metrics.num_idle_threads() == 0 {
            if self.metrics.num_threads() == self.thread_cap {
                Ok(SpawnAction::Queued)
            } else {
                let index = self.shared.worker_thread_index;
                self.shared.worker_thread_index = index + 1;
                self.shared.worker_threads.push(index);
                self.shared.assigned_indices = Ghost(self.shared.assigned_indices@.push(index));
                self.metrics.inc_num_threads();
                let liveness = match &self.shared.shutdown_tx {
                    Some(tx) => tx.clone(),
                    None => vstd::pervasive::unreached(),
                };
                Ok(SpawnAction::NewWorker { index, liveness })
            }
        } else {
            let _ = self.metrics.dec_num_idle_threads();
            self.shared.num_notify = self.shared.num_notify + 1;
            Ok(SpawnAction::Notified)
        }
    }

    /// A worker under the lock asks what to do next: run the task at the
    /// head of the queue, exit because shutdown has begun and the queue is
    /// drained, or wait for a wake.
    pub fn worker_poll(&mut self) -> (order: WorkerOrder)
        requires
            old(self).wf(),
        ensures
            final(self).wf(),
            Inner::config_unchanged(*old(self), *final(self)),
            final(self).metrics.spec_num_threads() == old(self).metrics.spec_num_threads(),
            final(self).metrics.spec_num_idle_threads() == old(
                self,
            ).metrics.spec_num_idle_threads(),
            final(self).shared.worker_threads == old(self).shared.worker_threads,
            final(self).shared.assigned_indices == old(self).shared.assigned_indices,
            final(self).shared.shutdown == old(self).shared.shutdown,
            final(self).shared.submitted == old(self).shared.submitted,
            final(self).shared.finished == old(self).shared.finished,
            order matches WorkerOrder::Run(id) ==> {
                &&& old(self).shared.queue@.len() > 0
                &&& id == old(self).shared.queue@[0]
                &&& final(self).shared.queue@ == old(self).shared.queue@.subrange(
                    1,
                    old(self).shared.queue@.len() as int,
                )
                &&& final(self).shared.running@ == old(self).shared.running@.insert(id)
            },
            !(order is Run) ==> {
                &&& old(self).shared.queue@.len() == 0
                &&& final(self).shared.queue@ == old(self).shared.queue@
                &&& final(self).shared.running == old(self).shared.running
            },
            final(self).shared.num_notify == old(self).shared.num_notify,
            final(self).shared.shutdown_tx == old(self).shared.shutdown_tx,
            final(self).shared.last_exiting_thread == old(self).shared.last_exiting_thread,
            final(self).shared.worker_thread_index == old(self).shared.worker_thread_index,
            order is Exit <==> old(self).shared.queue@.len() == 0 && old(self).shared.shutdown,
            order is Wait <==> old(self).shared.queue@.len() == 0 && !old(self).shared.shutdown,
    {
        match self.shared.queue.pop_front() {
            Some(id) => {
                self.metrics.dec_queue_depth();
                self.shared.running = Ghost(self.shared.running@.insert(id));
                proof {
                    let oldq = old(self).shared.queue@;
                    oldq.to_multiset_ensures();
                    assert(oldq.remove(0) =~= oldq.subrange(1, oldq.len() as int));
                    assert(self.shared.queue@.to_multiset() =~= oldq.to_multiset().remove(id));
                    assert(oldq.contains(id));
                    assert(oldq.to_multiset().count(id) > 0);
                    assert(self.shared.queue@.to_multiset().add(self.shared.running@)
                        =~= oldq.to_multiset().add(old(self).shared.running@));
                }
                WorkerOrder::Run(id)
            },
            None => {
                if self.shared.shutdown {
                    WorkerOrder::Exit
                } else {
                    WorkerOrder::Wait
                }
            },
        }
    }

    /// A worker begins waiting for work; it counts as idle until a
    /// submission signals it or it times out.
    pub fn worker_enter_idle(&mut self)
        requires
            old(self).wf(),
            old(self).metrics.spec_num_idle_threads() < old(self).metrics.spec_num_threads(),
        ensures
            final(self).wf(),
            Inner::config_unchanged(*old(self), *final(self)),
            final(self).metrics.spec_num_idle_threads() == old(
                self,
            ).metrics.spec_num_idle_threads() + 1,
            final(self).metrics.spec_num_threads() == old(self).metrics.spec_num_threads(),
            final(self).metrics.spec_queue_depth() == old(self).metrics.spec_queue_depth(),
            final(self).shared == old(self).shared,
    {
        self.metrics.inc_num_idle_threads();
    }

    /// A waiting worker consumes the wake signal a submission left for it.
    pub fn worker_consume_notify(&mut self)
        requires
            old(self).wf(),
            old(self).shared.num_notify > 0,
        ensures
            final(self).wf(),
            Inner::config_unchanged(*old(self), *final(self)),
            final(self).shared.num_notify == old(self).shared.num_notify - 1,
            final(self).metrics == old(self).metrics,
            final(self).shared.queue == old(self).shared.queue,
            final(self).shared.worker_threads == old(self).shared.worker_threads,
            final(self).shared.worker_thread_index == old(self).shared.worker_thread_index,
            final(self).shared.assigned_indices == old(self).shared.assigned_indices,
            final(self).shared.shutdown == old(self).shared.shutdown,
            final(self).shared.shutdown_tx == old(self).shared.shutdown_tx,
            final(self).shared.last_exiting_thread == old(self).shared.last_exiting_thread,
            final(self).shared.submitted == old(self).shared.submitted,
            final(self).shared.running == old(self).shared.running,
            final(self).shared.finished == old(self).shared.finished,
    {
        self.shared.num_notify = self.shared.num_notify - 1;
    }

    /// A worker finished executing a task; its result — a panic is caught
    /// and delivered as a failure the same way — is now observable through
    /// the task's join handle.
    pub fn task_finished(&mut self, task_id: u64)
        requires
            old(self).wf(),
            old(self).shared.running@.count(task_id) > 0,
        ensures
            final(self).wf(),
            Inner::config_unchanged(*old(self), *final(self)),
            final(self).shared.running@ == old(self).shared.running@.remove(task_id),
            final(self).shared.finished@ == old(self).shared.finished@.insert(task_id),
            final(self).shared.submitted == old(self).shared.submitted,
            final(self).shared.queue == old(self).shared.queue,
            final(self).shared.worker_threads == old(self).shared.worker_threads,
            final(self).shared.worker_thread_index == old(self).shared.worker_thread_index,
            final(self).shared.assigned_indices == old(self).shared.assigned_indices,
            final(self).shared.num_notify == old(self).shared.num_notify,
            final(self).shared.shutdown_tx == old(self).shared.shutdown_tx,
            final(self).shared.last_exiting_thread == old(self).shared.last_exiting_thread,
            final(self).metrics == old(self).metrics,
            final(self).shared.shutdown == old(self).shared.shutdown,
    {
        self.shared.running = Ghost(self.shared.running@.remove(task_id));
        self.shared.finished = Ghost(self.shared.finished@.insert(task_id));
        proof {
            assert(self.shared.queue@.to_multiset().add(self.shared.running@).add(
                self.shared.finished@,
            ) =~= old(self).shared.submitted@);
        }
    }

    /// A worker leaves the pool — it timed out while idle (`was_idle`) or it
    /// observed shutdown — removing itself from the worker table and handing
    /// back the previously exited worker's index so the embedder joins that
    /// thread first, keeping shutdown-time joins strictly ordered.
    pub fn worker_exit(&mut self, index: usize, was_idle: bool) -> (prev_exit: Option<usize>)
        requires
            old(self).wf(),
            old(self).shared.worker_threads@.contains(index),
            was_idle ==> old(self).metrics.spec_num_idle_threads() > 0,
            !was_idle ==> old(self).metrics.spec_num_idle_threads() < old(
                self,
            ).metrics.spec_num_threads(),
        ensures
            final(self).wf(),
            prev_exit == old(self).shared.last_exiting_thread,
            final(self).shared.last_exiting_thread == Some(index),
            !final(self).shared.worker_threads@.contains(index),
            final(self).metrics.spec_num_threads() == old(self).metrics.spec_num_threads() - 1,
            final(self).metrics.spec_num_idle_threads() == old(
                self,
            ).metrics.spec_num_idle_threads() - (if was_idle {
                1int
            } else {
                0int
            }),
            (exists|k: int|
                {
                    &&& 0 <= k < old(self).shared.worker_threads@.len()
                    &&& old(self).shared.worker_threads@[k] == index
                    &&& final(self).shared.worker_threads@ == old(
                        self,
                    ).shared.worker_threads@.remove(k)
                }),
            final(self).shared.queue == old(self).shared.queue,
            final(self).shared.submitted == old(self).shared.submitted,
            final(self).shared.running == old(self).shared.running,
            final(self).shared.finished == old(self).shared.finished,
            final(self).shared.assigned_indices == old(self).shared.assigned_indices,
            final(self).shared.shutdown == old(self).shared.shutdown,
            final(self).shared.shutdown_tx == old(self).shared.shutdown_tx,
            final(self).shared.num_notify == old(self).shared.num_notify,
            final(self).shared.worker_thread_index == old(self).shared.worker_thread_index,
            Inner::config_unchanged(*old(self), *final(self)),
    {
        let mut pos: usize = 0;
        let len = self.shared.worker_threads.len();
        while pos < len && *self.shared.worker_threads.get(pos).unwrap() != index
            invariant
                0 <= pos <= len,
                len == self.shared.worker_threads@.len(),
                forall|i: int| 0 <= i < pos ==> self.shared.worker_threads@[i] != index,
                self.shared.worker_threads@.contains(index),
            decreases len - pos,
        {
            pos = pos + 1;
        }
        proof {
            assert(pos < len) by {
                if pos == len {
                    let w = self.shared.worker_threads@;
                    let k = choose|k: int| 0 <= k < w.len() && w[k] == index;
                    assert(w[k] != index);
                }
            }
        }
        self.shared.worker_threads.remove(pos);
        if was_idle {
            let _ = self.metrics.dec_num_idle_threads();
        }
        self.metrics.dec_num_threads();
        let prev_exit = self.shared.last_exiting_thread;
        self.shared.last_exiting_thread = Some(index);
        proof {
            let oldw = old(self).shared.worker_threads@;
            let neww = self.shared.worker_threads@;
            assert(neww == oldw.remove(pos as int));
            let p = pos as int;
            assert forall|i: int, j: int| 0 <= i < j < neww.len() implies neww[i] < neww[j] by {
                assert(neww[i] == (if i < p {
                    oldw[i]
                } else {
                    oldw[i + 1]
                }));
                assert(neww[j] == (if j < p {
                    oldw[j]
                } else {
                    oldw[j + 1]
                }));
                assert(strictly_increasing(oldw));
            }
            assert forall|i: int|
                0 <= i < neww.len() implies neww[i] < self.shared.worker_thread_index by {
                assert(neww[i] == (if i < p {
                    oldw[i]
                } else {
                    oldw[i + 1]
                }));
            }
            assert(!neww.contains(index)) by {
                if neww.contains(index) {
                    let k = choose|k: int| 0 <= k < neww.len() && neww[k] == index;
                    if k < pos as int {
                        assert(oldw[k] == index && oldw[pos as int] == index);
                        assert(strictly_increasing(oldw));
                        assert(false);
                    } else {
                        assert(oldw[k + 1] == index && oldw[pos as int] == index);
                        assert(strictly_increasing(oldw));
                        assert(false);
                    }
                }
            }
        }
        prev_exit
    }

    /// An idle worker's wait on the pool's condition ended — by a wake or
    /// by the keep-alive timeout (`timed_out`) — and the worker asks, still
    /// under the lock, what that means: consume a submission's signal and
    /// return to the busy loop, leave the pool because shutdown began or
    /// the idle timeout struck, or treat the wake as spurious and keep
    /// waiting. A pending signal wins over shutdown, and shutdown over the
    /// timeout.
    pub fn worker_after_wait(&mut self, index: usize, timed_out: bool) -> (verdict: WaitVerdict)
        requires
            old(self).wf(),
            old(self).shared.worker_threads@.contains(index),
            old(self).shared.num_notify > 0 || old(self).metrics.spec_num_idle_threads() > 0,
        ensures
            final(self).wf(),
            Inner::config_unchanged(*old(self), *final(self)),
            verdict is Notified <==> old(self).shared.num_notify > 0,
            verdict is Spurious <==> old(self).shared.num_notify == 0 && !old(
                self,
            ).shared.shutdown && !timed_out,
            verdict matches WaitVerdict::ShutdownExit(prev) ==> old(self).shared.num_notify == 0
                && old(self).shared.shutdown && prev == old(self).shared.last_exiting_thread,
            verdict matches WaitVerdict::TimedOutExit(prev) ==> old(self).shared.num_notify == 0
                && !old(self).shared.shutdown && timed_out && prev == old(
                self,
            ).shared.last_exiting_thread,
            verdict is Notified ==> {
                &&& final(self).shared.num_notify == old(self).shared.num_notify - 1
                &&& final(self).metrics == old(self).metrics
                &&& final(self).shared.queue == old(self).shared.queue
                &&& final(self).shared.worker_threads == old(self).shared.worker_threads
                &&& final(self).shared.worker_thread_index == old(self).shared.worker_thread_index
                &&& final(self).shared.assigned_indices == old(self).shared.assigned_indices
                &&& final(self).shared.shutdown == old(self).shared.shutdown
                &&& final(self).shared.shutdown_tx == old(self).shared.shutdown_tx
                &&& final(self).shared.last_exiting_thread == old(self).shared.last_exiting_thread
                &&& final(self).shared.submitted == old(self).shared.submitted
                &&& final(self).shared.running == old(self).shared.running
                &&& final(self).shared.finished == old(self).shared.finished
            },
            verdict is Spurious ==> *final(self) == *old(self),
            verdict is ShutdownExit || verdict is TimedOutExit ==> {
                &&& !final(self).shared.worker_threads@.contains(index)
                &&& final(self).metrics.spec_num_threads() == old(
                    self,
                ).metrics.spec_num_threads() - 1
                &&& final(self).metrics.spec_num_idle_threads() == old(
                    self,
                ).metrics.spec_num_idle_threads() - 1
                &&& final(self).shared.last_exiting_thread == Some(index)
                &&& final(self).shared.queue == old(self).shared.queue
                &&& final(self).shared.worker_thread_index == old(self).shared.worker_thread_index
                &&& final(self).shared.assigned_indices == old(self).shared.assigned_indices
                &&& final(self).shared.num_notify == old(self).shared.num_notify
                &&& final(self).shared.shutdown == old(self).shared.shutdown
                &&& final(self).shared.shutdown_tx == old(self).shared.shutdown_tx
                &&& final(self).shared.submitted == old(self).shared.submitted
                &&& final(self).shared.running == old(self).shared.running
                &&& final(self).shared.finished == old(self).shared.finished
            },
    {
        if self.shared.num_notify > 0 {
            self.worker_consume_notify();
            WaitVerdict::Notified
        } else if self.shared.shutdown {
            let prev = self.worker_exit(index, true);
            WaitVerdict::ShutdownExit(prev)
        } else if timed_out {
            let prev = self.worker_exit(index, true);
            WaitVerdict::TimedOutExit(prev)
        } else {
            WaitVerdict::Spurious
        }
    }

    /// Marks the pool shut down and drops the controller's liveness token,
    /// so the shutdown receiver's wait completes once every worker has also
    /// dropped its own. Idempotent: reports whether shutdown had already
    /// begun.
    pub fn begin_shutdown(&mut self) -> (already: bool)
        requires
            old(self).wf(),
        ensures
            final(self).wf(),
            already <==> old(self).shared.shutdown,
            final(self).shared.shutdown,
            final(self).shared.shutdown_tx is None,
            Inner::config_unchanged(*old(self), *final(self)),
            final(self).shared.queue == old(self).shared.queue,
            final(self).shared.worker_threads == old(self).shared.worker_threads,
            final(self).shared.worker_thread_index == old(self).shared.worker_thread_index,
            final(self).shared.assigned_indices == old(self).shared.assigned_indices,
            final(self).shared.num_notify == old(self).shared.num_notify,
            final(self).shared.last_exiting_thread == old(self).shared.last_exiting_thread,
            final(self).shared.submitted == old(self).shared.submitted,
            final(self).shared.running == old(self).shared.running,
            final(self).shared.finished == old(self).shared.finished,
            final(self).metrics == old(self).metrics,
    {
        let already = self.shared.shutdown;
        self.shared.shutdown = true;
        self.shared.shutdown_tx = None;
        already
    }
}

/// Handle through which blocking work is submitted to the pool.
pub struct Spawner {
    pub inner: Inner,
}

impl Spawner {
    /// Submits a closure's task identity for blocking execution and returns
    /// the join handle its result will be observable through, together with
    /// the action the embedder must take; hands the identity back once
    /// shutdown has begun.
    pub fn spawn_blocking<R>(&mut self, task_id: u64) -> (r: Result<
        (JoinHandle<R>, SpawnAction),
        u64,
    >)
        requires
            old(self).inner.wf(),
            old(self).inner.shared.queue@.len() < usize::MAX,
            old(self).inner.shared.worker_thread_index < usize::MAX,
            old(self).inner.shared.num_notify < u32::MAX,
        ensures
            final(self).inner.wf(),
            final(self).inner.thread_cap == old(self).inner.thread_cap,
            final(self).inner.metrics.spec_num_threads() <= final(self).inner.thread_cap,
            r is Err <==> old(self).inner.shared.shutdown,
            r matches Err(t) ==> t == task_id && *final(self) == *old(self),
            r matches Ok((handle, action)) ==> {
                &&& handle.task_id == task_id
                &&& Inner::submit_accepted(old(self).inner, final(self).inner, task_id)
                &&& Inner::submit_action(old(self).inner, final(self).inner, action)
            },
    {
        match self.inner.submit(task_id) {
            Ok(action) => Ok((JoinHandle::new(task_id), action)),
            Err(t) => Err(t),
        }
    }
}

/// The blocking pool an embedder owns: the spawner plus the receiving end of
/// the shutdown channel.
pub struct BlockingPool {
    pub spawner: Spawner,
    pub shutdown_rx: ShutdownReceiver,
}

impl BlockingPool {
    /// The pool's invariant: the body is well formed, and the liveness
    /// token it clones for each worker belongs to the very channel its own
    /// shutdown receiver waits on.
    pub open spec fn wf(self) -> bool {
        &&& self.spawner.inner.wf()
        &&& (self.spawner.inner.shared.shutdown_tx matches Some(tx) ==> tx.channel_id()
            == self.shutdown_rx.channel_id())
    }

    /// Builds an empty pool from the builder's configuration, capped at
    /// `thread_cap` live workers.
    pub fn new(builder: &Builder, thread_cap: usize) -> (pool: BlockingPool)
        ensures
            pool.wf(),
            pool.spawner.inner.thread_cap == thread_cap,
            pool.spawner.inner.keep_alive_ms == (if builder.keep_alive_ms is Some {
                builder.keep_alive_ms->0
            } else {
                KEEP_ALIVE_MS
            }),
            pool.spawner.inner.thread_name == builder.thread_name,
            pool.spawner.inner.stack_size == builder.thread_stack_size,
            pool.spawner.inner.shared.queue@.len() == 0,
            pool.spawner.inner.shared.worker_threads@.len() == 0,
            pool.spawner.inner.shared.worker_thread_index == 0,
            !pool.spawner.inner.shared.shutdown,
            pool.spawner.inner.shared.num_notify == 0,
            pool.spawner.inner.shared.last_exiting_thread is None,
            pool.spawner.inner.metrics.spec_num_threads() == 0,
            pool.spawner.inner.metrics.spec_num_idle_threads() == 0,
            pool.spawner.inner.shared.assigned_indices@ == Seq::<usize>::empty(),
            pool.spawner.inner.shared.submitted@ == Multiset::<u64>::empty(),
            pool.spawner.inner.shared.running@ == Multiset::<u64>::empty(),
            pool.spawner.inner.shared.finished@ == Multiset::<u64>::empty(),
    {
        let (shutdown_tx, shutdown_rx) = shutdown::channel();
        let keep_alive = match builder.keep_alive_ms {
            Some(ms) => ms,
            None => KEEP_ALIVE_MS,
        };
        let pool = BlockingPool {
            spawner: Spawner {
                inner: Inner {
                    shared: Shared {
                        queue: VecDeque::new(),
                        num_notify: 0,
                        shutdown: false,
                        shutdown_tx: Some(shutdown_tx),
                        last_exiting_thread: None,
                        worker_threads: Vec::new(),
                        worker_thread_index: 0,
                        assigned_indices: Ghost(Seq::empty()),
                        submitted: Ghost(Multiset::empty()),
                        running: Ghost(Multiset::empty()),
                        finished: Ghost(Multiset::empty()),
                    },
                    thread_name: builder.thread_name.clone(),
                    stack_size: builder.thread_stack_size,
                    thread_cap,
                    keep_alive_ms: keep_alive,
                    metrics: SpawnerMetrics::new(),
                },
            },
            shutdown_rx,
        };
        proof {
            pool.spawner.inner.shared.queue@.to_multiset_ensures();
            assert(pool.spawner.inner.shared.queue@.to_multiset().len() == 0);
            assert(pool.spawner.inner.shared.submitted@ =~= pool.spawner.inner.shared.queue@
                .to_multiset().add(pool.spawner.inner.shared.running@).add(
                pool.spawner.inner.shared.finished@,
            ));
        }
        pool
    }

    /// The spawner blocking work is submitted through.
    pub fn spawner(&self) -> (s: &Spawner)
        ensures
            s == &self.spawner,
    {
        &self.spawner
    }

    /// Runs the controller's half of the shutdown protocol: marks the pool
    /// shut down, drops its liveness token, and waits — unboundedly, or up
    /// to `timeout_ms` — until every worker has dropped its own token, that
    /// is, until every worker has exited. Returns whether the wait
    /// completed; an unbounded wait always does, and a bounded one reports a
    /// timeout rather than hanging. The embedder then joins the recorded
    /// worker threads in index order.
    pub fn shutdown(&mut self, timeout_ms: Option<u64>) -> (completed: bool)
        requires
            old(self).wf(),
        ensures
            final(self).wf(),
            final(self).spawner.inner.shared.shutdown,
            final(self).spawner.inner.shared.shutdown_tx is None,
            final(self).shutdown_rx.channel_id() == old(self).shutdown_rx.channel_id(),
            timeout_ms is None ==> completed,
    {
        let _ = self.spawner.inner.begin_shutdown();
        self.shutdown_rx.wait(timeout_ms)
    }
}

/// Creates the blocking pool a runtime owns.
pub fn create_blocking_pool(builder: &Builder, thread_cap: usize) -> (pool: BlockingPool)
    ensures
        pool.wf(),
        pool.spawner.inner.thread_cap == thread_cap,
        pool.spawner.inner.keep_alive_ms == (if builder.keep_alive_ms is Some {
            builder.keep_alive_ms->0
        } else {
            KEEP_ALIVE_MS
        }),
        pool.spawner.inner.thread_name == builder.thread_name,
        pool.spawner.inner.stack_size == builder.thread_stack_size,
        pool.spawner.inner.shared.queue@.len() == 0,
        pool.spawner.inner.shared.worker_threads@.len() == 0,
        pool.spawner.inner.shared.worker_thread_index == 0,
        !pool.spawner.inner.shared.shutdown,
        pool.spawner.inner.shared.num_notify == 0,
        pool.spawner.inner.shared.last_exiting_thread is None,
        pool.spawner.inner.metrics.spec_num_threads() == 0,
        pool.spawner.inner.metrics.spec_num_idle_threads() == 0,
        pool.spawner.inner.shared.assigned_indices@ == Seq::<usize>::empty(),
        pool.spawner.inner.shared.submitted@ == Multiset::<u64>::empty(),
        pool.spawner.inner.shared.running@ == Multiset::<u64>::empty(),
        pool.spawner.inner.shared.finished@ == Multiset::<u64>::empty(),
{
    BlockingPool::new(builder, thread_cap)
}

/// Law (thread-cap bound): in every reachable pool state the number of live
/// worker threads is at most the configured cap.
pub proof fn lemma_thread_cap_bound(inner: Inner)
    requires
        inner.wf(),
    ensures
        inner.metrics.spec_num_threads() <= inner.thread_cap,
{
}

/// Law (completion accounting): once nothing is queued and nothing is
/// running, the finished tasks are exactly the submitted ones — every
/// accepted task's result is delivered exactly once, no loss and no
/// duplication, however many tasks were in flight at once.
pub proof fn lemma_completion_accounting(inner: Inner)
    requires
        inner.wf(),
        inner.shared.queue@.len() == 0,
        inner.shared.running@ == Multiset::<u64>::empty(),
    ensures
        inner.shared.finished@ =~= inner.shared.submitted@,
{
    inner.shared.queue@.to_multiset_ensures();
    assert(inner.shared.queue@.to_multiset().len() == 0);
    assert(inner.shared.queue@.to_multiset().add(inner.shared.running@).add(
        inner.shared.finished@,
    ) =~= inner.shared.finished@);
}

/// Law (index monotonicity): worker indices are assigned in strictly
/// increasing order, so no two workers of one pool ever share an index.
pub proof fn lemma_index_monotonic(assigned: Seq<usize>)
    requires
        strictly_increasing(assigned),
    ensures
        forall|i: int, j: int|
            0 <= i < assigned.len() && 0 <= j < assigned.len() && i != j ==> assigned[i]
                != assigned[j],
{
}

} // verus!
