//! Join handles: the caller's claim on a spawned unit of work.

use vstd::prelude::*;
use core::marker::PhantomData;

verus! {

/// The eventual result of a spawned unit of work producing a `T`.
///
/// The handle names the task whose completion it observes; awaiting it
/// yields the task's result, or a failure if the task panicked. The waking
/// and the value transfer run through the embedder's channel for that
/// identity. Dropping a handle before completion detaches from the task but
/// does not cancel it.
pub struct JoinHandle<T> {
    /// Identity of the task this handle observes.
    pub task_id: u64,
    pub _output: PhantomData<T>,
}

impl<T> JoinHandle<T> {
    /// Claims the result of task `task_id`.
    pub(crate) fn new(task_id: u64) -> (h: JoinHandle<T>)
        ensures
            h.task_id == task_id,
    {
        JoinHandle { task_id, _output: PhantomData }
    }

    /// The identity of the task this handle observes.
    pub fn task_id(&self) -> (id: u64)
        ensures
            id == self.task_id,
    {
        self.task_id
    }
}

} // verus!
