//! The managed connection: a future that wraps a connection and makes it aware
//! of the two shutdown signals.

use crate::signal::fired;
use crate::task::call_pinned;
use crate::task::pin_boxed;
use crate::task::pinned_mut;
use crate::task::poll_pinned;
use crate::task::unpinned;
use std::future::Future;
use std::pin::Pin;
use std::task::Context;
use std::task::Poll;
use tokio::sync::broadcast;
use tokio::sync::mpsc;
use vstd::prelude::*;

verus! {

/// The outcome of a connection that was abandoned because the shutdown deadline
/// passed. It is final: the connection must be treated as closed.
#[derive(Debug, Clone)]
pub struct ForcefullyClosed;

impl ForcefullyClosed {
    /// The text that describes this outcome.
    pub fn message(&self) -> (text: String)
        ensures
            text@ == "Connection was forcefully closed"@,
    {
        "Connection was forcefully closed".to_owned()
    }
}

/// What a managed connection remembers between polls.
pub struct ConnectionState {
    /// It still holds its subscription to the graceful signal.
    pub subscribed: bool,
    /// Its shutdown callback has not run yet.
    pub armed: bool,
}

impl ConnectionState {
    /// A connection that has just been wrapped.
    pub open spec fn fresh() -> ConnectionState {
        ConnectionState { subscribed: true, armed: true }
    }

    /// A connection that has observed the graceful signal.
    pub open spec fn notified() -> ConnectionState {
        ConnectionState { subscribed: false, armed: false }
    }

    /// The subscription and the callback go together.
    pub open spec fn wf(self) -> bool {
        self.subscribed == self.armed
    }

    /// Whether a poll observes the graceful signal, given what the subscription
    /// would answer. A connection without subscription observes nothing.
    pub open spec fn observes(self, graceful: bool) -> bool {
        self.subscribed && graceful
    }

    /// Whether a poll runs the shutdown callback.
    pub open spec fn runs_callback(self, graceful: bool) -> bool {
        self.observes(graceful) && self.armed
    }

    /// The state after a poll: observing the signal gives up the subscription and
    /// spends the callback.
    pub open spec fn after_poll(self, graceful: bool) -> ConnectionState {
        if self.observes(graceful) {
            ConnectionState::notified()
        } else {
            self
        }
    }
}

/// What a poll resolves to, given what the cancel subscription answers and what
/// the wrapped future would answer. Cancellation wins, and then the wrapped
/// future is not asked.
pub open spec fn verdict<O>(cancel: bool, inner: Poll<O>) -> Poll<Result<O, ForcefullyClosed>> {
    if cancel {
        Poll::Ready(Err(ForcefullyClosed))
    } else {
        match inner {
            Poll::Ready(output) => Poll::Ready(Ok(output)),
            Poll::Pending => Poll::Pending,
        }
    }
}

/// One poll of a managed connection as a function of what it reads: the next
/// state and what the poll returns.
pub open spec fn poll_step<O>(state: ConnectionState, graceful: bool, cancel: bool, inner: Poll<O>) -> (
    ConnectionState,
    Poll<Result<O, ForcefullyClosed>>,
) {
    (state.after_poll(graceful), verdict(cancel, inner))
}

/// Passes on what the wrapped future answered as the connection's own answer.
pub fn completed<O>(inner: Poll<O>) -> (polled: Poll<Result<O, ForcefullyClosed>>)
    ensures
        polled == verdict(false, inner),
{
    match inner {
        Poll::Ready(output) => Poll::Ready(Ok(output)),
        Poll::Pending => Poll::Pending,
    }
}

/// Decides from what the cancel subscription answered whether the poll ends here:
/// once the cancel signal has fired the connection resolves to forced closure
/// and the wrapped future is not asked; else the poll goes on to it.
pub fn forced_closure<O>(cancel: bool) -> (resolved: Option<Poll<Result<O, ForcefullyClosed>>>)
    ensures
        cancel ==> resolved == Some(verdict::<O>(true, Poll::Pending)),
        !cancel ==> resolved is None,
{
    if cancel {
        Some(Poll::Ready(Err(ForcefullyClosed)))
    } else {
        None
    }
}

/// A connection wrapped for graceful shutdown. It resolves to what the wrapped
/// future resolves to, or to [`ForcefullyClosed`] once the cancel signal fires.
///
/// The wrapper adds no suspension point and asks for no wake-up of its own: it
/// reads the signals whenever the scheduler polls it, so a signal is observed on
/// the connection's next poll after the emission. Once it has resolved to
/// [`ForcefullyClosed`] it must not be polled again. Its counting handle is
/// released when the wrapper is dropped, polled or not.
#[verifier::reject_recursive_types(T)]
pub struct GracefulConnection<T, F> {
    inner: Pin<Box<T>>,
    graceful_receiver: Option<broadcast::Receiver<()>>,
    on_shutdown: Option<F>,
    cancel_receiver: broadcast::Receiver<()>,
    data: mpsc::Sender<()>,
}

impl<T, F> View for GracefulConnection<T, F> {
    type V = ConnectionState;

    closed spec fn view(&self) -> ConnectionState {
        ConnectionState {
            subscribed: self.graceful_receiver is Some,
            armed: self.on_shutdown is Some,
        }
    }
}

/// The wrapped future lives in a pinned box, so the wrapper itself may be moved.
impl<T, F> Unpin for GracefulConnection<T, F> {

}

impl<T, F> GracefulConnection<T, F> {
    /// The subscription to the graceful signal, while it is held.
    pub closed spec fn graceful_subscription(&self) -> Option<broadcast::Receiver<()>> {
        self.graceful_receiver
    }

    /// The shutdown callback, until it has run.
    pub closed spec fn callback(&self) -> Option<F> {
        self.on_shutdown
    }

    /// The subscription to the cancel signal.
    pub closed spec fn cancel_subscription(&self) -> broadcast::Receiver<()> {
        self.cancel_receiver
    }

    /// The counting handle, held for as long as the connection lives.
    pub closed spec fn handle(&self) -> mpsc::Sender<()> {
        self.data
    }

    /// The view says which of the subscription and the callback are still there.
    pub proof fn view_tells_what_is_held(&self)
        ensures
            self@.subscribed == (self.graceful_subscription() is Some),
            self@.armed == (self.callback() is Some),
    {
    }
}

impl<T, F> GracefulConnection<T, F> where T: Future, F: FnOnce(Pin<&mut T>) {
    /// Wraps `future` with its two subscriptions, its callback and its counting
    /// handle. The subscriptions are held as they were given: what is pending on
    /// them stays pending.
    pub fn new(
        future: T,
        graceful_receiver: broadcast::Receiver<()>,
        on_shutdown: F,
        cancel_receiver: broadcast::Receiver<()>,
        data: mpsc::Sender<()>,
    ) -> (connection: Self)
        ensures
            connection@ == ConnectionState::fresh(),
            connection.graceful_subscription() == Some(graceful_receiver),
            connection.callback() == Some(on_shutdown),
            connection.cancel_subscription() == cancel_receiver,
            connection.handle() == data,
    {
        GracefulConnection {
            inner: pin_boxed(future),
            graceful_receiver: Some(graceful_receiver),
            on_shutdown: Some(on_shutdown),
            cancel_receiver,
            data,
        }
    }

    /// Records what the graceful subscription answered. When the signal is
    /// observed the subscription is given up, and the callback is handed out to be
    /// run, for the only time; else the connection stays as it is.
    pub fn note_graceful(&mut self, graceful: bool) -> (callback: Option<F>)
        ensures
            final(self)@ == old(self)@.after_poll(graceful),
            callback == if old(self)@.observes(graceful) {
                old(self).callback()
            } else {
                None
            },
            final(self).callback() == if old(self)@.observes(graceful) {
                None
            } else {
                old(self).callback()
            },
            final(self).graceful_subscription() == if old(self)@.observes(graceful) {
                None
            } else {
                old(self).graceful_subscription()
            },
            final(self).cancel_subscription() == old(self).cancel_subscription(),
            final(self).handle() == old(self).handle(),
    {
        if graceful && self.graceful_receiver.is_some() {
            self.graceful_receiver = None;
            self.on_shutdown.take()
        } else {
            None
        }
    }

    /// Polls the connection once.
    ///
    /// First the graceful subscription is read, if it is still held; when it has
    /// fired, the shutdown callback runs on the wrapped future. Then the cancel
    /// subscription is read; when it has fired the poll resolves to
    /// [`ForcefullyClosed`] and the wrapped future is not polled. Otherwise the
    /// wrapped future is polled and its answer passed on.
    ///
    /// What the subscriptions and the wrapped future answer is not for this
    /// library to decide: the poll behaves as [`poll_step`] says for some answers.
    /// What each answer leads to is decided by [`fired`],
    /// [`GracefulConnection::note_graceful`], [`forced_closure`] and
    /// [`completed`]. The counting handle is kept whatever the answers, and so is
    /// the callback while it has not run.
    pub fn poll_connection(&mut self, cx: &mut Context<'_>) -> (polled: Poll<
        Result<T::Output, ForcefullyClosed>,
    >)
        ensures
            exists|graceful: bool, cancel: bool, inner: Poll<T::Output>|
                (final(self)@, polled) == #[trigger] poll_step(old(self)@, graceful, cancel, inner),
            old(self)@.wf() ==> final(self)@.wf(),
            final(self).handle() == old(self).handle(),
            final(self)@.armed ==> final(self).callback() == old(self).callback(),
    {
        let graceful = match &mut self.graceful_receiver {
            Some(receiver) => fired(receiver.try_recv()),
            None => false,
        };
        if let Some(callback) = self.note_graceful(graceful) {
            call_pinned(callback, pinned_mut(&mut self.inner));
        }
        let cancel = fired(self.cancel_receiver.try_recv());
        if let Some(resolved) = forced_closure(cancel) {
            assert((self@, resolved) == poll_step::<T::Output>(
                old(self)@,
                graceful,
                true,
                Poll::Pending,
            ));
            return resolved;
        }
        let inner = poll_pinned(pinned_mut(&mut self.inner), cx);
        let ghost answered = inner;
        let polled = completed(inner);
        assert((self@, polled) == poll_step(old(self)@, graceful, false, answered));
        polled
    }
}

impl<T, F> Future for GracefulConnection<T, F> where T: Future, F: FnOnce(Pin<&mut T>) {
    type Output = Result<T::Output, ForcefullyClosed>;

    fn poll(self: Pin<&mut Self>, cx: &mut Context<'_>) -> Poll<Self::Output> {
        unpinned(self).poll_connection(cx)
    }
}

} // verus!
