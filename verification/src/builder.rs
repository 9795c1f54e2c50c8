//! Runtime configuration and construction.

use vstd::prelude::*;
use crate::pool;
use crate::runtime::Runtime;

verus! {

/// Which executor strategy a built runtime uses. Today there is exactly one;
/// the tag leaves room for a multi-thread variant without changing callers.
#[derive(Clone, Copy)]
pub enum Kind {
    CurrentThread,
}

/// Default cap on concurrently live blocking worker threads. The value is an
/// ordinary, overridable default with no special intent behind it.
pub const DEFAULT_MAX_BLOCKING_THREADS: usize = 512;

/// Default number of queue items the driver processes between checks for
/// externally delivered wakes.
pub const DEFAULT_EVENT_INTERVAL: u32 = 4;

/// Runtime builder: collects configuration and constructs a [`Runtime`].
///
/// The thread-name generator and the post-start/pre-stop callbacks of a full
/// deployment are opaque closures; the embedding application keeps those and
/// hands workers the fixed name label stored here.
pub struct Builder {
    pub kind: Kind,
    /// Cap on concurrently live blocking worker threads.
    pub max_blocking_threads: usize,
    /// How many queue items the driver processes between checks for external
    /// wakes.
    pub event_interval: u32,
    /// Idle-exit timeout for blocking workers; the pool default applies when
    /// absent.
    pub keep_alive_ms: Option<u64>,
    /// Name label for threads spawned by the runtime.
    pub thread_name: String,
    /// OS stack size override for spawned worker threads.
    pub thread_stack_size: Option<usize>,
}

/// Never produced today: construction spawns no threads up front, so
/// building cannot fail. The variant records the one failure the interface
/// admits, a worker thread the OS refused at construction time.
#[derive(Debug)]
pub enum BuildError {
    ThreadSpawn,
}

impl Builder {
    /// Creates a builder for the given scheduler kind with every other
    /// option at its default.
    pub fn new(kind: Kind, event_interval: u32) -> (b: Builder)
        ensures
            b.kind == kind,
            b.event_interval == event_interval,
            b.max_blocking_threads == DEFAULT_MAX_BLOCKING_THREADS,
            b.keep_alive_ms is None,
            b.thread_name@ == "kioto-runtime-worker"@,
            b.thread_stack_size is None,
    {
        Builder {
            kind,
            event_interval,
            max_blocking_threads: DEFAULT_MAX_BLOCKING_THREADS,
            keep_alive_ms: None,
            thread_name: "kioto-runtime-worker".to_owned(),
            thread_stack_size: None,
        }
    }

    /// Creates a builder for a current-thread runtime.
    pub fn new_current_thread() -> (b: Builder)
        ensures
            b.kind is CurrentThread,
            b.event_interval == DEFAULT_EVENT_INTERVAL,
            b.max_blocking_threads == DEFAULT_MAX_BLOCKING_THREADS,
            b.keep_alive_ms is None,
            b.thread_name@ == "kioto-runtime-worker"@,
            b.thread_stack_size is None,
    {
        Builder::new(Kind::CurrentThread, DEFAULT_EVENT_INTERVAL)
    }

    /// Sets the hard cap on concurrently live blocking worker threads.
    pub fn max_blocking_threads(self, val: usize) -> (b: Builder)
        ensures
            b == (Builder { max_blocking_threads: val, ..self }),
    {
        Builder { max_blocking_threads: val, ..self }
    }

    /// Sets the idle-exit timeout for blocking workers, in milliseconds.
    pub fn keep_alive_ms(self, ms: u64) -> (b: Builder)
        ensures
            b == (Builder { keep_alive_ms: Some(ms), ..self }),
    {
        Builder { keep_alive_ms: Some(ms), ..self }
    }

    /// Sets the name label for threads spawned by the runtime.
    pub fn thread_name(self, name: String) -> (b: Builder)
        ensures
            b == (Builder { thread_name: name, ..self }),
    {
        Builder { thread_name: name, ..self }
    }

    /// Sets the OS stack size for spawned worker threads.
    pub fn thread_stack_size(self, val: usize) -> (b: Builder)
        ensures
            b == (Builder { thread_stack_size: Some(val), ..self }),
    {
        Builder { thread_stack_size: Some(val), ..self }
    }

    /// Sets how many queue items the driver processes between checks for
    /// external wakes.
    pub fn event_interval(self, val: u32) -> (b: Builder)
        ensures
            b == (Builder { event_interval: val, ..self }),
    {
        Builder { event_interval: val, ..self }
    }

    /// What a successfully built runtime looks like: a fresh scheduler and
    /// an empty blocking pool sized and timed by this configuration.
    pub open spec fn built(self, rt: Runtime) -> bool {
        &&& rt.wf()
        &&& rt.scheduler.core_contents() matches Some(c) && c.tasks@ == Seq::<u64>::empty()
        &&& rt.blocking_pool.spawner.inner.thread_cap == self.max_blocking_threads
        &&& rt.blocking_pool.spawner.inner.keep_alive_ms == (if self.keep_alive_ms is Some {
            self.keep_alive_ms->0
        } else {
            pool::KEEP_ALIVE_MS
        })
        &&& !rt.blocking_pool.spawner.inner.shared.shutdown
        &&& rt.blocking_pool.spawner.inner.shared.queue@.len() == 0
        &&& rt.event_interval == self.event_interval
    }

    /// Builds the configured runtime. Construction spawns no worker threads
    /// up front — workers start lazily, on demand — so building always
    /// succeeds today; the `Result` carries the one failure the interface
    /// admits, for when a construction-time thread spawn is reintroduced.
    pub fn build(&self) -> (r: Result<Runtime, BuildError>)
        ensures
            r is Ok,
            r matches Ok(rt) ==> self.built(rt),
    {
        match self.kind {
            Kind::CurrentThread => self.build_current_thread_runtime(),
        }
    }

    fn build_current_thread_runtime(&self) -> (r: Result<Runtime, BuildError>)
        ensures
            r is Ok,
            r matches Ok(rt) ==> self.built(rt),
    {
        Ok(Runtime::from_builder(self))
    }
}

} // verus!
