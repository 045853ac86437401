//! The connection manager and the shutdown sequence it starts.

use crate::connection::ConnectionState;
use crate::connection::GracefulConnection;
use crate::signal::emit;
use crate::signal::new_signal;
use crate::signal::retained;
use crate::signal::SIGNAL_CAPACITY;
use crate::tracker::new_tracker;
use crate::tracker::poll_drain;
use crate::tracker::release;
use std::future::Future;
use std::pin::Pin;
use std::task::Context;
use std::task::Poll;
use tokio::sync::broadcast;
use tokio::sync::mpsc;
use vstd::prelude::*;

verus! {

/// How a shutdown ended: how many connections left gracefully and how many were
/// forced.
#[derive(Debug, Clone)]
pub struct GracefulShutdownResult {
    graceful: usize,
    forced: usize,
}

impl View for GracefulShutdownResult {
    type V = (nat, nat);

    /// The pair (gracefully shut down, forcefully shut down).
    closed spec fn view(&self) -> (nat, nat) {
        (self.graceful as nat, self.forced as nat)
    }
}

impl GracefulShutdownResult {
    /// Number of connections which completed
    pub fn gracefully_shutdown_connections(&self) -> (count: usize)
        ensures
            count == self@.0,
    {
        self.graceful
    }

    /// Number of connections which were cancelled
    pub fn forcefully_shutdown_connections(&self) -> (count: usize)
        ensures
            count == self@.1,
    {
        self.forced
    }
}

/// What a shutdown reports, from the number of connections the graceful signal
/// reached and, if the deadline passed, the number the cancel signal reached.
///
/// Without cancellation every signalled connection left gracefully. With it, the
/// cancelled ones are taken off the graceful side; no connection subscribes
/// during a shutdown, so no more are cancelled than were signalled, and should
/// the counts ever say otherwise the graceful side is zero.
pub open spec fn shutdown_result(signaled: nat, cancelled: Option<nat>) -> (nat, nat) {
    match cancelled {
        None => (signaled, 0),
        Some(forced) => (
            if forced <= signaled {
                (signaled - forced) as nat
            } else {
                0
            },
            forced,
        ),
    }
}

/// Counts as mathematical numbers.
pub open spec fn counted(count: Option<usize>) -> Option<nat> {
    match count {
        None => None,
        Some(n) => Some(n as nat),
    }
}

/// Computes what a shutdown reports.
pub fn report(signaled: usize, cancelled: Option<usize>) -> (result: GracefulShutdownResult)
    ensures
        result@ == shutdown_result(signaled as nat, counted(cancelled)),
{
    match cancelled {
        None => GracefulShutdownResult { graceful: signaled, forced: 0 },
        Some(forced) => {
            let graceful = if forced <= signaled {
                signaled - forced
            } else {
                0
            };
            GracefulShutdownResult { graceful, forced }
        },
    }
}

/// Based on the [Tokio Shutdown Guide](https://tokio.rs/tokio/topics/shutdown)
/// This uses a broadcast channel to send a signal that the connections should begin shutting down
/// And then uses an mpsc channel, which waits for all the connections to complete
pub struct ConnectionManager {
    graceful_broadcast_tx: broadcast::Sender<()>,
    cancel_broadcast_tx: broadcast::Sender<()>,
    tracker_tx: mpsc::Sender<()>,
    tracker_rx: mpsc::Receiver<()>,
}

impl Default for ConnectionManager {
    /// A manager with both signals unsent, no connection registered, and one
    /// counting handle of its own. Each signal retains only its most recent
    /// emission for a subscriber that has not read it.
    fn default() -> (manager: Self)
        ensures
            retained(manager.graceful_signal()) == SIGNAL_CAPACITY,
            retained(manager.cancel_signal()) == SIGNAL_CAPACITY,
    {
        let graceful_broadcast_tx = new_signal();
        let cancel_broadcast_tx = new_signal();
        let (tracker_tx, tracker_rx) = new_tracker();
        ConnectionManager { graceful_broadcast_tx, cancel_broadcast_tx, tracker_tx, tracker_rx }
    }
}

/// How far a shutdown has come.
pub struct ShutdownProgress {
    /// The number of connections the graceful signal reached.
    pub signaled: nat,
    /// The number of connections the cancel signal reached, once it was sent.
    pub cancelled: Option<nat>,
}

impl ShutdownProgress {
    /// A shutdown that has just begun, its graceful signal having reached
    /// `reached` connections.
    pub open spec fn begun(reached: nat) -> ShutdownProgress {
        ShutdownProgress { signaled: reached, cancelled: None }
    }

    /// The progress once the deadline has passed and the cancel signal has
    /// reached `reached` connections. The deadline counts once: a shutdown that
    /// has cancelled already stays as it is.
    pub open spec fn after_deadline(self, reached: nat) -> ShutdownProgress {
        match self.cancelled {
            None => ShutdownProgress { cancelled: Some(reached), ..self },
            Some(_) => self,
        }
    }

    /// What the shutdown reports if the drain completes now.
    pub open spec fn report(self) -> (nat, nat) {
        shutdown_result(self.signaled, self.cancelled)
    }
}

/// A shutdown in progress: the graceful signal has been sent and the manager's
/// own counting handle released.
///
/// Whoever drives it waits for [`Shutdown::poll_drained`] until the deadline,
/// calls [`Shutdown::deadline_elapsed`] if the deadline comes first, and then
/// waits for [`Shutdown::poll_drained`] without bound.
pub struct Shutdown {
    signaled: usize,
    cancelled: Option<usize>,
    cancel_broadcast_tx: broadcast::Sender<()>,
    tracker_rx: mpsc::Receiver<()>,
}

impl View for Shutdown {
    type V = ShutdownProgress;

    closed spec fn view(&self) -> ShutdownProgress {
        ShutdownProgress { signaled: self.signaled as nat, cancelled: counted(self.cancelled) }
    }
}

impl ConnectionManager {
    /// The broadcaster of the graceful signal, to which every connection that
    /// this manager wraps is subscribed.
    pub closed spec fn graceful_signal(&self) -> broadcast::Sender<()> {
        self.graceful_broadcast_tx
    }

    /// The broadcaster of the cancel signal, to which every connection that this
    /// manager wraps is subscribed.
    pub closed spec fn cancel_signal(&self) -> broadcast::Sender<()> {
        self.cancel_broadcast_tx
    }

    /// The consuming end of the counter whose handles this manager gives out.
    pub closed spec fn drain_watcher(&self) -> mpsc::Receiver<()> {
        self.tracker_rx
    }

    /// Manages a connection
    /// Note: You must still spawn / poll the connection future yourself!
    #[must_use]
    pub fn manage_connection<C, F, O>(&self, connection: C, on_shutdown: F) -> (managed:
        GracefulConnection<C, F>) where
        C: Future<Output = O> + Send + 'static,
        F: Fn(Pin<&mut C>) + Send + 'static,
        O: Send + 'static,

        ensures
            managed@ == ConnectionState::fresh(),
            managed.callback() == Some(on_shutdown),
    {
        let graceful_rx = self.graceful_broadcast_tx.subscribe();
        let cancel_rx = self.cancel_broadcast_tx.subscribe();
        GracefulConnection::new(
            connection,
            graceful_rx,
            on_shutdown,
            cancel_rx,
            self.tracker_tx.clone(),
        )
    }

    /// Begins the shutdown: sends the graceful signal, records how many
    /// connections it reached, and releases the manager's own counting handle.
    /// The manager is used up: its cancel broadcaster and the consuming end of
    /// its counter pass to the shutdown, which so cancels the connections that
    /// this manager wrapped and waits for their handles, and no others.
    pub fn begin_shutdown(self) -> (shutdown: Shutdown)
        ensures
            shutdown@ == ShutdownProgress::begun(shutdown@.signaled),
            shutdown.cancel_signal() == self.cancel_signal(),
            shutdown.drain_watcher() == self.drain_watcher(),
    {
        let ConnectionManager { graceful_broadcast_tx, cancel_broadcast_tx, tracker_tx, tracker_rx } =
            self;
        let signaled = emit(&graceful_broadcast_tx);
        release(tracker_tx);
        Shutdown::begun(signaled, cancel_broadcast_tx, tracker_rx)
    }
}

impl Shutdown {
    /// The broadcaster on which this shutdown cancels.
    pub closed spec fn cancel_signal(&self) -> broadcast::Sender<()> {
        self.cancel_broadcast_tx
    }

    /// The consuming end of the counter for whose drain this shutdown waits.
    pub closed spec fn drain_watcher(&self) -> mpsc::Receiver<()> {
        self.tracker_rx
    }

    /// The shutdown that has just begun: its graceful signal has reached
    /// `signaled` connections, it cancels on `cancel_signal`, and it waits for the
    /// drain that `drain_watcher` sees.
    pub fn begun(
        signaled: usize,
        cancel_signal: broadcast::Sender<()>,
        drain_watcher: mpsc::Receiver<()>,
    ) -> (shutdown: Shutdown)
        ensures
            shutdown@ == ShutdownProgress::begun(signaled as nat),
            shutdown.cancel_signal() == cancel_signal,
            shutdown.drain_watcher() == drain_watcher,
    {
        Shutdown {
            signaled,
            cancelled: None,
            cancel_broadcast_tx: cancel_signal,
            tracker_rx: drain_watcher,
        }
    }

    /// Whether the deadline has not counted yet, so that the cancel signal is
    /// still to be sent.
    pub fn awaits_deadline(&self) -> (open: bool)
        ensures
            open == (self@.cancelled is None),
    {
        self.cancelled.is_none()
    }

    /// Records that the cancel signal has reached `reached` connections. The
    /// deadline counts once: a shutdown that has cancelled already stays as it is.
    pub fn note_cancelled(&mut self, reached: usize)
        ensures
            final(self)@ == old(self)@.after_deadline(reached as nat),
            final(self).cancel_signal() == old(self).cancel_signal(),
            final(self).drain_watcher() == old(self).drain_watcher(),
    {
        if self.cancelled.is_none() {
            self.cancelled = Some(reached);
        }
    }

    /// What a poll for the drain returns, given whether the drain was seen: the
    /// report once it is complete, and until then nothing.
    pub fn resolve(&self, drained: bool) -> (polled: Poll<GracefulShutdownResult>)
        ensures
            drained ==> (polled matches Poll::Ready(result) && result@ == self@.report()),
            !drained ==> polled is Pending,
    {
        if drained {
            Poll::Ready(report(self.signaled, self.cancelled))
        } else {
            Poll::Pending
        }
    }

    /// Asks without blocking whether every connection has gone. When none is left
    /// the shutdown is over and its report is returned; until then the waker of
    /// `cx` is registered.
    pub fn poll_drained(&mut self, cx: &mut Context<'_>) -> (polled: Poll<GracefulShutdownResult>)
        ensures
            final(self)@ == old(self)@,
            final(self).cancel_signal() == old(self).cancel_signal(),
            polled matches Poll::Ready(result) ==> result@ == old(self)@.report(),
    {
        let drained = poll_drain(&mut self.tracker_rx, cx);
        self.resolve(drained)
    }

    /// Tells the shutdown that its deadline has passed with connections still
    /// live: the cancel signal is sent and the number of connections it reached
    /// recorded. The deadline counts once; later calls change nothing.
    pub fn deadline_elapsed(&mut self)
        ensures
            final(self)@.cancelled matches Some(reached) && final(self)@ == old(
                self,
            )@.after_deadline(reached),
            final(self).cancel_signal() == old(self).cancel_signal(),
            final(self).drain_watcher() == old(self).drain_watcher(),
    {
        if self.awaits_deadline() {
            let reached = emit(&self.cancel_broadcast_tx);
            self.note_cancelled(reached);
        }
    }
}

} // verus!
