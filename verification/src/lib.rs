//! A minimal cooperative task runtime: a current-thread scheduler for
//! asynchronous tasks plus a capacity-bounded pool of worker threads for
//! synchronous (blocking) work.
//!
//! The crate verifies the runtime's bookkeeping: who owns the scheduler's
//! ready queue at any instant, how blocking work is queued and dispatched
//! without ever exceeding the worker-thread cap, how worker indices are
//! assigned, and how shutdown drains the pool. The embedding application
//! supplies OS threads, futures and closures, and drives these state
//! machines; every decision the runtime takes is made by verified code here.

pub mod atomic_cell;
pub mod builder;
pub mod current_thread;
pub mod handle;
pub mod join;
pub mod pool;
pub mod runtime;
pub mod schedule;
pub mod scheduler;
pub mod shutdown;
pub mod task;
pub mod types;
