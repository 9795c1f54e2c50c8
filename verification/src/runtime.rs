//! The runtime facade: the public entry point owning one scheduler and the
//! blocking pool.

use vstd::prelude::*;
use crate::builder::Builder;
use crate::current_thread::{DriveSession, ReentrancyError};
use crate::join::JoinHandle;
use crate::pool;
use crate::pool::{BlockingPool, Inner, SpawnAction};
use crate::scheduler::Scheduler;

verus! {

/// The live executor: drives a root future on the calling thread, spawns
/// blocking work onto the pool, and owns the pool's lifetime. The embedder
/// tears the pool down through [`Runtime::shutdown`] before the runtime is
/// dropped, so no worker thread outlives it.
pub struct Runtime {
    pub scheduler: Scheduler,
    pub blocking_pool: BlockingPool,
    /// How many queue items a drive processes between checks for external
    /// wakes.
    pub event_interval: u32,
}

impl Runtime {
    /// The runtime's invariant: its pool is well formed, its shutdown
    /// receiver paired with the tokens the pool hands out.
    pub open spec fn wf(self) -> bool {
        self.blocking_pool.wf()
    }

    /// Builds the runtime a builder configured: the scheduler facade and a
    /// blocking pool sized with the builder's cap.
    pub fn from_builder(builder: &Builder) -> (rt: Runtime)
        ensures
            rt.wf(),
            rt.scheduler.core_contents() matches Some(c) && c.tasks@ == Seq::<u64>::empty(),
            rt.blocking_pool.spawner.inner.thread_cap == builder.max_blocking_threads,
            rt.blocking_pool.spawner.inner.keep_alive_ms == (if builder.keep_alive_ms is Some {
                builder.keep_alive_ms->0
            } else {
                pool::KEEP_ALIVE_MS
            }),
            rt.blocking_pool.spawner.inner.shared.queue@.len() == 0,
            rt.blocking_pool.spawner.inner.shared.worker_threads@.len() == 0,
            rt.blocking_pool.spawner.inner.shared.worker_thread_index == 0,
            rt.blocking_pool.spawner.inner.shared.num_notify == 0,
            rt.blocking_pool.spawner.inner.metrics.spec_num_threads() == 0,
            rt.blocking_pool.spawner.inner.metrics.spec_num_idle_threads() == 0,
            rt.blocking_pool.spawner.inner.shared.submitted@ == vstd::multiset::Multiset::<
                u64,
            >::empty(),
            !rt.blocking_pool.spawner.inner.shared.shutdown,
            rt.event_interval == builder.event_interval,
    {
        Runtime {
            scheduler: Scheduler::build_current_threaded_scheduler(),
            blocking_pool: pool::create_blocking_pool(builder, builder.max_blocking_threads),
            event_interval: builder.event_interval,
        }
    }

    /// Builds a runtime with every option at its current-thread default.
    pub fn new() -> (rt: Runtime)
        ensures
            rt.wf(),
            rt.scheduler.core_contents() matches Some(c) && c.tasks@ == Seq::<u64>::empty(),
            rt.blocking_pool.spawner.inner.thread_cap
                == crate::builder::DEFAULT_MAX_BLOCKING_THREADS,
            rt.blocking_pool.spawner.inner.keep_alive_ms == pool::KEEP_ALIVE_MS,
            rt.blocking_pool.spawner.inner.shared.queue@.len() == 0,
            rt.blocking_pool.spawner.inner.shared.worker_thread_index == 0,
            rt.blocking_pool.spawner.inner.shared.num_notify == 0,
            rt.blocking_pool.spawner.inner.metrics.spec_num_threads() == 0,
            rt.blocking_pool.spawner.inner.metrics.spec_num_idle_threads() == 0,
            !rt.blocking_pool.spawner.inner.shared.shutdown,
            rt.event_interval == crate::builder::DEFAULT_EVENT_INTERVAL,
    {
        let builder = Builder::new_current_thread();
        Runtime::from_builder(&builder)
    }

    /// Submits a blocking task's identity to the pool; the embedder runs
    /// the closure on the worker this orders (or on whichever worker drains
    /// the queue) and the result becomes observable through the returned
    /// join handle. Hands the identity back once the pool is shut down.
    pub fn spawn_blocking<R>(&mut self, task_id: u64) -> (r: Result<
        (JoinHandle<R>, SpawnAction),
        u64,
    >)
        requires
            old(self).wf(),
            old(self).blocking_pool.spawner.inner.shared.queue@.len() < usize::MAX,
            old(self).blocking_pool.spawner.inner.shared.worker_thread_index < usize::MAX,
            old(self).blocking_pool.spawner.inner.shared.num_notify < u32::MAX,
        ensures
            final(self).wf(),
            final(self).blocking_pool.spawner.inner.thread_cap == old(
                self,
            ).blocking_pool.spawner.inner.thread_cap,
            final(self).blocking_pool.spawner.inner.metrics.spec_num_threads()
                <= final(self).blocking_pool.spawner.inner.thread_cap,
            r is Err <==> old(self).blocking_pool.spawner.inner.shared.shutdown,
            r matches Err(t) ==> t == task_id && *final(self) == *old(self),
            r matches Ok((handle, action)) ==> {
                &&& handle.task_id == task_id
                &&& Inner::submit_accepted(
                    old(self).blocking_pool.spawner.inner,
                    final(self).blocking_pool.spawner.inner,
                    task_id,
                )
                &&& Inner::submit_action(
                    old(self).blocking_pool.spawner.inner,
                    final(self).blocking_pool.spawner.inner,
                    action,
                )
            },
            final(self).scheduler == old(self).scheduler,
            final(self).event_interval == old(self).event_interval,
    {
        self.blocking_pool.spawner.spawn_blocking(task_id)
    }

    /// Begins driving a root future on the calling thread; fails with the
    /// reentrancy error exactly when a drive is already active on this
    /// scheduler.
    pub fn begin_drive(&mut self) -> (r: Result<DriveSession, ReentrancyError>)
        ensures
            r is Ok <==> old(self).scheduler.core_contents() is Some,
            r is Err <==> old(self).scheduler.core_contents() is None,
            r matches Ok(s) ==> Some(s.core) == old(self).scheduler.core_contents()
                && !s.completed,
            final(self).scheduler.core_contents() is None,
            final(self).blocking_pool == old(self).blocking_pool,
            final(self).event_interval == old(self).event_interval,
    {
        self.scheduler.begin_drive()
    }

    /// Ends a drive once the root future has completed, returning the
    /// queue core.
    pub fn finish_drive(&mut self, session: DriveSession)
        requires
            session.completed,
            old(self).scheduler.core_contents() is None,
        ensures
            final(self).scheduler.core_contents() == Some(session.core),
            final(self).blocking_pool == old(self).blocking_pool,
            final(self).event_interval == old(self).event_interval,
    {
        self.scheduler.finish_drive(session)
    }

    /// The runtime's teardown: runs the pool's shutdown protocol, waiting —
    /// unboundedly, or up to `timeout_ms` — for every worker to exit. The
    /// embedder calls this from its drop path and then joins the recorded
    /// worker threads in index order.
    pub fn shutdown(&mut self, timeout_ms: Option<u64>) -> (completed: bool)
        requires
            old(self).wf(),
        ensures
            final(self).wf(),
            final(self).blocking_pool.spawner.inner.shared.shutdown,
            timeout_ms is None ==> completed,
    {
        self.blocking_pool.shutdown(timeout_ms)
    }
}

} // verus!
