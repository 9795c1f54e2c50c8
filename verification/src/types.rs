//! The runtime's capability surface.

use vstd::prelude::*;
use core::future::Future;
use crate::join::JoinHandle;

verus! {

/// The capability set a live runtime exposes: spawning asynchronous tasks,
/// spawning blocking work, and driving a root future to completion. The
/// embedding application's runtime realizes this surface around the
/// verified core; futures and closures never enter the verified state
/// machines, only the task identities their join handles carry.
pub trait TokioRuntime {
    /// Spawns an asynchronous task onto the runtime.
    fn spawn<F>(&self, future: F) -> JoinHandle<F::Output>
    where
        F: Future + Send + 'static,
        F::Output: Send + 'static,
    ;

    /// Runs the provided function on an executor dedicated to blocking
    /// operations.
    fn spawn_blocking<F, R>(&self, func: F) -> JoinHandle<R>
    where
        F: FnOnce() -> R + Send + 'static,
        R: Send + 'static,
    ;

    /// Runs a future to completion on the runtime: the runtime's entry
    /// point.
    fn block_on<F: Future>(&self, future: F) -> F::Output;
}

} // verus!
