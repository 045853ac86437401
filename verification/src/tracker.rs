//! The live-connection counter.
//!
//! The counter is a tokio mpsc channel on which nothing is ever sent. Every
//! managed connection, and at first the manager itself, holds a sending half as
//! its counting handle. The receiving half reports the channel closed exactly
//! when the last handle has been dropped: that is the drain.

use std::task::Context;
use std::task::Poll;
use tokio::sync::mpsc;
use vstd::prelude::*;

verus! {

/// The sending half of a tokio mpsc channel, opaque to the verifier.
#[verifier::external_type_specification]
#[verifier::external_body]
#[verifier::reject_recursive_types(T)]
pub struct ExHandleSender<T>(mpsc::Sender<T>);

/// The receiving half of a tokio mpsc channel, opaque to the verifier.
#[verifier::external_type_specification]
#[verifier::external_body]
#[verifier::reject_recursive_types(T)]
pub struct ExDrainReceiver<T>(mpsc::Receiver<T>);

/// `tokio::sync::mpsc::channel` creates a bounded channel. It panics on a buffer
/// of zero or above the semaphore's limit of `usize::MAX >> 3`; the precondition
/// excludes both. Nothing is claimed of the two halves it returns.
pub assume_specification<T>[ mpsc::channel::<T> ](buffer: usize) -> (halves: (
    mpsc::Sender<T>,
    mpsc::Receiver<T>,
))
    requires
        0 < buffer <= usize::MAX / 8,
;

/// `Clone` for `mpsc::Sender` returns another sending half of the same channel.
/// Nothing is claimed of it.
pub assume_specification<T>[ <mpsc::Sender<T> as Clone>::clone ](
    sender: &mpsc::Sender<T>,
) -> (copy: mpsc::Sender<T>)
;

/// `mpsc::Receiver::poll_recv` is ready with a message, ready with `None` once
/// every sending half is gone, or pending after registering the waker. Which one
/// depends on what other tasks hold, so nothing is claimed of the answer.
pub assume_specification<T>[ mpsc::Receiver::<T>::poll_recv ](
    receiver: &mut mpsc::Receiver<T>,
    cx: &mut Context<'_>,
) -> (polled: Poll<Option<T>>)
;

/// Releases a counting handle: the handle is taken by value and its life ends
/// here, which takes it off the count.
#[allow(unused_variables)]
pub(crate) fn release(handle: mpsc::Sender<()>) {
}

/// The buffer of the counter's channel. Nothing is sent on it, so the smallest
/// buffer does.
pub const TRACKER_BUFFER: usize = 1;

/// Creates a counter with one live handle, returned beside its drain watcher.
pub(crate) fn new_tracker() -> (halves: (mpsc::Sender<()>, mpsc::Receiver<()>)) {
    mpsc::channel::<()>(TRACKER_BUFFER)
}

/// Whether an answer of the drain watcher says that the drain is complete. Any
/// ready answer does: the channel is closed once no counting handle is left, and
/// nothing is ever sent on it.
pub open spec fn drain_seen(answer: Poll<Option<()>>) -> bool {
    answer is Ready
}

/// Reads an answer of the drain watcher.
pub fn drain_complete(answer: Poll<Option<()>>) -> (drained: bool)
    ensures
        drained == drain_seen(answer),
{
    match answer {
        Poll::Ready(_) => true,
        Poll::Pending => false,
    }
}

/// Asks the drain watcher, without blocking, whether every counting handle has
/// been released. While some are left the waker of `cx` is registered.
pub(crate) fn poll_drain(watcher: &mut mpsc::Receiver<()>, cx: &mut Context<'_>) -> (drained: bool) {
    drain_complete(watcher.poll_recv(cx))
}

} // verus!
