//! The pool's shutdown channel: one signal per worker thread.
//!
//! Every worker holds a clone of one [`ShutdownSender`]; the pool's controller holds
//! the single [`ShutdownReceiver`]. A worker never sends anything — dropping its
//! clone on exit is the signal — so the receiver's wait finishes exactly when
//! the last sender handle is gone, that is, when every worker has exited.
//!
//! Each endpoint carries a ghost channel identity. The trusted constructor
//! issues one identity to both ends of a pair, cloning a sender preserves
//! it, and the pool's invariant ties every liveness token it hands out to
//! the identity of the receiver its shutdown waits on.

use vstd::prelude::*;
use std::sync::Arc;
use std::time::Duration;

verus! {

#[verifier::external_type_specification]
#[verifier::external_body]
#[verifier::reject_recursive_types(T)]
pub struct ExOneshotSender<T>(oneshot::Sender<T>);

#[verifier::external_type_specification]
#[verifier::external_body]
#[verifier::reject_recursive_types(T)]
pub struct ExOneshotReceiver<T>(oneshot::Receiver<T>);

/// A worker's liveness token. Cloned once per worker thread; dropping the
/// last clone (each worker drops its own on exit) completes the channel.
pub struct ShutdownSender {
    tx: Arc<oneshot::Sender<()>>,
    id: Ghost<int>,
}

/// The controller's end: waits until every [`ShutdownSender`] clone of the
/// same channel has been dropped.
pub struct ShutdownReceiver {
    rx: oneshot::Receiver<()>,
    id: Ghost<int>,
}

impl ShutdownSender {
    /// The identity of the underlying one-shot channel.
    pub closed spec fn channel_id(self) -> int {
        self.id@
    }
}

impl ShutdownReceiver {
    /// The identity of the underlying one-shot channel.
    pub closed spec fn channel_id(self) -> int {
        self.id@
    }
}

/// Relies on oneshot::channel: returns the two endpoints of one fresh
/// one-shot channel — the receiver's blocking operations finish once this
/// sender (here: its last reference-counted clone) is dropped or has sent.
/// The shared ghost identity records that the pair is linked.
#[verifier::external_body]
fn oneshot_channel() -> (endpoints: (ShutdownSender, ShutdownReceiver))
    ensures
        endpoints.0.channel_id() == endpoints.1.channel_id(),
{
    let (tx, rx) = oneshot::channel();
    (ShutdownSender { tx: Arc::new(tx), id: Ghost(0) }, ShutdownReceiver { rx, id: Ghost(0) })
}

/// Relies on oneshot::Receiver::recv_ref: it returns only once the channel is
/// complete — a message arrived, or every sender handle was dropped.
#[verifier::external_body]
fn recv_wait(rx: &oneshot::Receiver<()>) {
    let _ = rx.recv_ref();
}

/// Relies on oneshot::Receiver::recv_timeout: `Err(Timeout)` is the one
/// outcome on which the channel may still be open; `Ok` and
/// `Err(Disconnected)` both mean it is complete.
#[verifier::external_body]
fn recv_wait_timeout(rx: &oneshot::Receiver<()>, timeout_ms: u64) -> (completed: bool) {
    match rx.recv_timeout(Duration::from_millis(timeout_ms)) {
        Ok(()) => true,
        Err(oneshot::RecvTimeoutError::Timeout) => false,
        Err(oneshot::RecvTimeoutError::Disconnected) => true,
    }
}

/// Relies on Arc::clone: another handle to the same reference-counted
/// sender; the underlying oneshot sender is dropped only when the last
/// handle is.
#[verifier::external_body]
fn clone_sender_arc(tx: &Arc<oneshot::Sender<()>>) -> (r: Arc<oneshot::Sender<()>>) {
    Arc::clone(tx)
}

impl Clone for ShutdownSender {
    /// Another token for the same channel: the clone carries the same
    /// channel identity, and the channel completes only when every clone is
    /// gone.
    fn clone(&self) -> (r: ShutdownSender)
        ensures
            r.channel_id() == self.channel_id(),
    {
        ShutdownSender { tx: clone_sender_arc(&self.tx), id: self.id }
    }
}

/// Creates the shutdown signal pair for one pool: a linked pair, sharing
/// one channel identity.
pub fn channel() -> (endpoints: (ShutdownSender, ShutdownReceiver))
    ensures
        endpoints.0.channel_id() == endpoints.1.channel_id(),
{
    oneshot_channel()
}

impl ShutdownReceiver {
    /// Blocks the calling thread until all sender clones of this channel
    /// have been dropped, or until `timeout_ms` elapses if one is given.
    /// Returns whether the wait completed; an unbounded wait always does.
    pub fn wait(&mut self, timeout_ms: Option<u64>) -> (completed: bool)
        ensures
            timeout_ms is None ==> completed,
            final(self).channel_id() == old(self).channel_id(),
    {
        match timeout_ms {
            None => {
                recv_wait(&self.rx);
                true
            },
            Some(ms) => recv_wait_timeout(&self.rx, ms),
        }
    }
}

} // verus!
