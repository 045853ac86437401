//! The poll protocol and the shutdown steps, driven by hand: every poll below
//! happens exactly where the test says.

use hyper_graceful::connection::completed;
use hyper_graceful::connection::forced_closure;
use hyper_graceful::manager::report;
use hyper_graceful::signal::fired;
use hyper_graceful::signal::subscribers_reached;
use hyper_graceful::signal::unsubscribed;
use hyper_graceful::tracker::drain_complete;
use hyper_graceful::ConnectionManager;
use hyper_graceful::ForcefullyClosed;
use hyper_graceful::GracefulConnection;
use hyper_graceful::GracefulShutdownResult;
use hyper_graceful::Shutdown;
use std::future::pending;
use std::future::ready;
use std::future::Future;
use std::future::Pending;
use std::future::Ready;
use std::pin::Pin;
use std::sync::Arc;
use std::sync::Mutex;
use std::task::Context;
use std::task::Poll;
use std::task::Waker;
use tokio::sync::broadcast;
use tokio::sync::broadcast::error::SendError;
use tokio::sync::broadcast::error::TryRecvError;
use tokio::sync::mpsc;

fn poll_once<F: Future + Unpin>(future: &mut F) -> Poll<F::Output> {
    let mut cx = Context::from_waker(Waker::noop());
    Pin::new(future).poll(&mut cx)
}

fn poll_shutdown(shutdown: &mut Shutdown) -> Option<(usize, usize)> {
    let mut cx = Context::from_waker(Waker::noop());
    match shutdown.poll_drained(&mut cx) {
        Poll::Ready(result) => Some(counts(&result)),
        Poll::Pending => None,
    }
}

fn counts(result: &GracefulShutdownResult) -> (usize, usize) {
    (result.gracefully_shutdown_connections(), result.forcefully_shutdown_connections())
}

/// A shared tally and a callback that adds one to it each time it runs.
fn tally() -> Arc<Mutex<usize>> {
    Arc::new(Mutex::new(0))
}

fn bump(tally: &Arc<Mutex<usize>>) {
    *tally.lock().unwrap() += 1;
}

fn read(tally: &Arc<Mutex<usize>>) -> usize {
    *tally.lock().unwrap()
}

/// A future that never completes and tallies how often it is polled.
struct Watched {
    polls: Arc<Mutex<usize>>,
}

impl Future for Watched {
    type Output = ();

    fn poll(self: Pin<&mut Self>, _: &mut Context<'_>) -> Poll<()> {
        bump(&self.polls);
        Poll::Pending
    }
}

#[test]
fn every_connection_wrapped_before_the_signal_is_notified_exactly_once() {
    let manager = ConnectionManager::default();
    let tallies = [tally(), tally(), tally()];
    let mut connections = Vec::new();
    for tally in &tallies {
        let tally = tally.clone();
        connections.push(
            manager.manage_connection(pending::<()>(), move |_: Pin<&mut Pending<()>>| bump(&tally)),
        );
    }
    for connection in connections.iter_mut() {
        assert!(poll_once(connection).is_pending());
    }
    assert_eq!(tallies.each_ref().map(read), [0, 0, 0]);

    let _shutdown = manager.begin_shutdown();
    assert_eq!(tallies.each_ref().map(read), [0, 0, 0]);
    for connection in connections.iter_mut() {
        assert!(poll_once(connection).is_pending());
    }
    assert_eq!(tallies.each_ref().map(read), [1, 1, 1]);
    for _ in 0..3 {
        for connection in connections.iter_mut() {
            assert!(poll_once(connection).is_pending());
        }
    }
    assert_eq!(tallies.each_ref().map(read), [1, 1, 1]);
}

#[test]
fn connection_wrapped_after_the_signal_is_never_notified() {
    let (graceful, _) = broadcast::channel::<()>(1);
    let (cancel, _) = broadcast::channel::<()>(1);
    let (handle, _watcher) = mpsc::channel::<()>(1);
    let (early_tally, late_tally) = (tally(), tally());

    let in_early = early_tally.clone();
    let mut early = GracefulConnection::new(
        pending::<()>(),
        graceful.subscribe(),
        move |_: Pin<&mut Pending<()>>| bump(&in_early),
        cancel.subscribe(),
        handle.clone(),
    );
    assert_eq!(graceful.send(()).unwrap(), 1);
    let in_late = late_tally.clone();
    let mut late = GracefulConnection::new(
        pending::<()>(),
        graceful.subscribe(),
        move |_: Pin<&mut Pending<()>>| bump(&in_late),
        cancel.subscribe(),
        handle.clone(),
    );

    for _ in 0..3 {
        assert!(poll_once(&mut early).is_pending());
        assert!(poll_once(&mut late).is_pending());
    }
    assert_eq!(read(&early_tally), 1);
    assert_eq!(read(&late_tally), 0);
}

#[test]
fn dropping_an_unpolled_connection_releases_its_handle() {
    let manager = ConnectionManager::default();
    let notified = tally();
    let in_callback = notified.clone();
    let connection =
        manager.manage_connection(pending::<()>(), move |_: Pin<&mut Pending<()>>| bump(&in_callback));
    let mut shutdown = manager.begin_shutdown();
    assert_eq!(poll_shutdown(&mut shutdown), None);
    drop(connection);
    assert_eq!(poll_shutdown(&mut shutdown), Some((1, 0)));
    assert_eq!(read(&notified), 0);
}

#[test]
fn drain_waits_for_the_last_connection() {
    let manager = ConnectionManager::default();
    let first = manager.manage_connection(pending::<()>(), |_| {});
    let second = manager.manage_connection(pending::<()>(), |_| {});
    let mut shutdown = manager.begin_shutdown();
    assert_eq!(poll_shutdown(&mut shutdown), None);
    drop(first);
    assert_eq!(poll_shutdown(&mut shutdown), None);
    drop(second);
    assert_eq!(poll_shutdown(&mut shutdown), Some((2, 0)));
}

#[test]
fn idle_manager_drains_at_once() {
    let mut shutdown = ConnectionManager::default().begin_shutdown();
    assert_eq!(poll_shutdown(&mut shutdown), Some((0, 0)));
}

#[test]
fn idle_manager_past_its_deadline_reports_nothing_forced() {
    let mut shutdown = ConnectionManager::default().begin_shutdown();
    shutdown.deadline_elapsed();
    assert_eq!(poll_shutdown(&mut shutdown), Some((0, 0)));
}

#[test]
fn connections_gone_before_the_shutdown_are_not_counted() {
    let manager = ConnectionManager::default();
    let mut done = manager.manage_connection(ready(1u8), |_| {});
    assert!(matches!(poll_once(&mut done), Poll::Ready(Ok(1))));
    drop(done);
    let _live = manager.manage_connection(pending::<()>(), |_| {});
    let mut shutdown = manager.begin_shutdown();
    assert_eq!(poll_shutdown(&mut shutdown), None);
    drop(_live);
    assert_eq!(poll_shutdown(&mut shutdown), Some((1, 0)));
}

#[test]
fn all_connections_gone_in_time_are_reported_graceful() {
    let manager = ConnectionManager::default();
    let mut connections = Vec::new();
    for answer in 0..4u32 {
        connections.push(manager.manage_connection(ready(answer), |_: Pin<&mut Ready<u32>>| {}));
    }
    let mut shutdown = manager.begin_shutdown();
    for (answer, mut connection) in connections.into_iter().enumerate() {
        match poll_once(&mut connection) {
            Poll::Ready(Ok(output)) => assert_eq!(output as usize, answer),
            _ => panic!("the wrapped future was ready"),
        }
    }
    assert_eq!(poll_shutdown(&mut shutdown), Some((4, 0)));
}

#[test]
fn stragglers_are_reported_forced_and_resolve_on_their_next_poll() {
    let manager = ConnectionManager::default();
    let mut quick = Vec::new();
    for _ in 0..2 {
        quick.push(manager.manage_connection(ready(()), |_| {}));
    }
    let mut stuck = manager.manage_connection(pending::<()>(), |_| {});
    let mut shutdown = manager.begin_shutdown();

    for connection in quick.iter_mut() {
        assert!(matches!(poll_once(connection), Poll::Ready(Ok(()))));
    }
    drop(quick);
    assert!(poll_once(&mut stuck).is_pending());
    assert_eq!(poll_shutdown(&mut shutdown), None);

    shutdown.deadline_elapsed();
    assert_eq!(poll_shutdown(&mut shutdown), None);
    assert!(matches!(poll_once(&mut stuck), Poll::Ready(Err(ForcefullyClosed))));
    drop(stuck);
    assert_eq!(poll_shutdown(&mut shutdown), Some((2, 1)));
}

#[test]
fn every_straggler_is_forced() {
    let manager = ConnectionManager::default();
    let mut stuck = Vec::new();
    for _ in 0..3 {
        stuck.push(manager.manage_connection(pending::<u64>(), |_| {}));
    }
    let mut shutdown = manager.begin_shutdown();
    shutdown.deadline_elapsed();
    for connection in stuck.iter_mut() {
        assert!(matches!(poll_once(connection), Poll::Ready(Err(ForcefullyClosed))));
    }
    drop(stuck);
    assert_eq!(poll_shutdown(&mut shutdown), Some((0, 3)));
}

#[test]
fn deadline_after_the_drain_forces_nobody() {
    let manager = ConnectionManager::default();
    let mut connection = manager.manage_connection(ready(()), |_| {});
    let mut shutdown = manager.begin_shutdown();
    assert!(matches!(poll_once(&mut connection), Poll::Ready(Ok(()))));
    drop(connection);
    shutdown.deadline_elapsed();
    assert_eq!(poll_shutdown(&mut shutdown), Some((1, 0)));
}

#[test]
fn deadline_counts_once() {
    let manager = ConnectionManager::default();
    let mut first = manager.manage_connection(pending::<()>(), |_| {});
    let second = manager.manage_connection(pending::<()>(), |_| {});
    let mut shutdown = manager.begin_shutdown();
    shutdown.deadline_elapsed();
    drop(second);
    shutdown.deadline_elapsed();
    // A second emission would have overrun the signal's single slot, and the
    // first poll would have reported the lag instead of the cancellation.
    assert!(matches!(poll_once(&mut first), Poll::Ready(Err(ForcefullyClosed))));
    drop(first);
    assert_eq!(poll_shutdown(&mut shutdown), Some((0, 2)));
}

#[test]
fn cancellation_wins_when_both_signals_precede_the_first_poll() {
    let manager = ConnectionManager::default();
    let notified = tally();
    let polls = tally();
    let in_callback = notified.clone();
    let mut connection = manager
        .manage_connection(Watched { polls: polls.clone() }, move |_: Pin<&mut Watched>| {
            bump(&in_callback)
        });
    let mut shutdown = manager.begin_shutdown();
    shutdown.deadline_elapsed();

    assert!(matches!(poll_once(&mut connection), Poll::Ready(Err(ForcefullyClosed))));
    assert_eq!(read(&notified), 1);
    assert_eq!(read(&polls), 0);
}

#[test]
fn callback_runs_before_a_completing_future_resolves() {
    let manager = ConnectionManager::default();
    let notified = tally();
    let in_callback = notified.clone();
    let mut connection =
        manager.manage_connection(ready(7u32), move |_: Pin<&mut Ready<u32>>| bump(&in_callback));
    let _shutdown = manager.begin_shutdown();
    assert!(matches!(poll_once(&mut connection), Poll::Ready(Ok(7))));
    assert_eq!(read(&notified), 1);
}

#[test]
fn callback_gets_the_wrapped_future() {
    let manager = ConnectionManager::default();
    let mut connection = manager.manage_connection(ready(1u32), |mut inner: Pin<&mut Ready<u32>>| {
        inner.set(ready(2u32));
    });
    let _shutdown = manager.begin_shutdown();
    assert!(matches!(poll_once(&mut connection), Poll::Ready(Ok(2))));
}

#[test]
fn connection_without_shutdown_resolves_to_the_wrapped_output() {
    let manager = ConnectionManager::default();
    let notified = tally();
    let in_callback = notified.clone();
    let mut connection =
        manager.manage_connection(ready("done"), move |_: Pin<&mut Ready<&str>>| bump(&in_callback));
    assert!(matches!(poll_once(&mut connection), Poll::Ready(Ok("done"))));
    assert_eq!(read(&notified), 0);
}

#[test]
fn pending_connection_is_polled_through() {
    let manager = ConnectionManager::default();
    let polls = tally();
    let mut connection = manager.manage_connection(Watched { polls: polls.clone() }, |_| {});
    for _ in 0..3 {
        assert!(poll_once(&mut connection).is_pending());
    }
    assert_eq!(read(&polls), 3);
}

#[test]
fn cancelled_connection_does_not_poll_the_wrapped_future() {
    let manager = ConnectionManager::default();
    let polls = tally();
    let mut connection = manager.manage_connection(Watched { polls: polls.clone() }, |_| {});
    assert!(poll_once(&mut connection).is_pending());
    let mut shutdown = manager.begin_shutdown();
    assert!(poll_once(&mut connection).is_pending());
    assert_eq!(read(&polls), 2);
    shutdown.deadline_elapsed();
    assert!(matches!(poll_once(&mut connection), Poll::Ready(Err(ForcefullyClosed))));
    assert_eq!(read(&polls), 2);
}

#[test]
fn connection_outlives_a_dropped_manager() {
    let manager = ConnectionManager::default();
    let notified = tally();
    let in_callback = notified.clone();
    let polls = tally();
    let mut connection = manager
        .manage_connection(Watched { polls: polls.clone() }, move |_: Pin<&mut Watched>| {
            bump(&in_callback)
        });
    drop(manager);
    assert!(poll_once(&mut connection).is_pending());
    assert!(poll_once(&mut connection).is_pending());
    assert_eq!(read(&polls), 2);
    assert_eq!(read(&notified), 0);
}

#[test]
fn report_without_cancellation_counts_everyone_graceful() {
    assert_eq!(counts(&report(3, None)), (3, 0));
    assert_eq!(counts(&report(0, None)), (0, 0));
    assert_eq!(counts(&report(usize::MAX, None)), (usize::MAX, 0));
}

#[test]
fn report_takes_the_cancelled_off_the_graceful_side() {
    assert_eq!(counts(&report(3, Some(1))), (2, 1));
    assert_eq!(counts(&report(2, Some(2))), (0, 2));
    assert_eq!(counts(&report(5, Some(0))), (5, 0));
    assert_eq!(counts(&report(0, Some(0))), (0, 0));
}

#[test]
fn report_never_goes_below_zero() {
    assert_eq!(counts(&report(1, Some(2))), (0, 2));
    assert_eq!(counts(&report(0, Some(usize::MAX))), (0, usize::MAX));
}

#[test]
fn emission_to_nobody_reaches_zero() {
    assert_eq!(subscribers_reached(Err(SendError(()))), 0);
    assert_eq!(subscribers_reached(Ok(1)), 1);
    assert_eq!(subscribers_reached(Ok(4)), 4);
}

#[test]
fn wrapped_answer_is_passed_on() {
    assert!(matches!(completed(Poll::Ready(9u8)), Poll::Ready(Ok(9))));
    assert!(matches!(completed(Poll::<u8>::Pending), Poll::Pending));
}

#[test]
fn forcefully_closed_says_what_happened() {
    assert_eq!(ForcefullyClosed.message(), "Connection was forcefully closed");
    assert_eq!(format!("{:?}", ForcefullyClosed.clone()), "ForcefullyClosed");
}

#[test]
fn shutdown_result_can_be_copied_and_printed() {
    let result = report(2, Some(1));
    let copy = result.clone();
    assert_eq!(counts(&copy), (1, 1));
    assert_eq!(format!("{result:?}"), "GracefulShutdownResult { graceful: 1, forced: 1 }");
}

#[test]
fn any_ready_answer_of_the_watcher_is_the_drain() {
    assert!(drain_complete(Poll::Ready(None)));
    assert!(drain_complete(Poll::Ready(Some(()))));
    assert!(!drain_complete(Poll::Pending));
}

#[test]
fn new_signal_keeps_the_sender_and_no_subscriber() {
    let (sender, receiver) = broadcast::channel::<()>(1);
    let twin = sender.clone();
    let signal = unsubscribed((sender, receiver));
    assert!(signal.same_channel(&twin));
    assert_eq!(signal.receiver_count(), 0);
    assert_eq!(subscribers_reached(signal.send(())), 0);
    let _subscriber = signal.subscribe();
    assert_eq!(subscribers_reached(signal.send(())), 1);
}

#[test]
fn only_a_received_emission_has_fired() {
    assert!(fired(Ok(())));
    assert!(!fired(Err(TryRecvError::Empty)));
    assert!(!fired(Err(TryRecvError::Closed)));
    assert!(!fired(Err(TryRecvError::Lagged(1))));
}

#[test]
fn cancellation_ends_the_poll_with_forced_closure() {
    assert!(matches!(forced_closure::<u8>(true), Some(Poll::Ready(Err(ForcefullyClosed)))));
    assert!(forced_closure::<u8>(false).is_none());
}

#[test]
fn observed_signal_hands_the_callback_out_once() {
    let manager = ConnectionManager::default();
    let notified = tally();
    let in_callback = notified.clone();
    let mut connection =
        manager.manage_connection(pending::<()>(), move |_: Pin<&mut Pending<()>>| bump(&in_callback));
    assert!(connection.note_graceful(false).is_none());
    let callback = connection.note_graceful(true);
    assert!(callback.is_some());
    assert!(connection.note_graceful(true).is_none());
    assert_eq!(read(&notified), 0);

    // The subscription went with the callback: the signal is no longer heard.
    let _shutdown = manager.begin_shutdown();
    assert!(poll_once(&mut connection).is_pending());
    assert_eq!(read(&notified), 0);
    let mut inner = pending::<()>();
    (callback.unwrap())(Pin::new(&mut inner));
    assert_eq!(read(&notified), 1);
}

#[test]
fn new_connection_holds_what_it_was_given() {
    let (graceful, _) = broadcast::channel::<()>(1);
    let (cancel, _) = broadcast::channel::<()>(1);
    let (handle, mut watcher) = mpsc::channel::<()>(1);
    let graceful_subscription = graceful.subscribe();
    let cancel_subscription = cancel.subscribe();
    // Both signals are pending on the subscriptions when they are handed over.
    assert_eq!(graceful.send(()).unwrap(), 1);
    assert_eq!(cancel.send(()).unwrap(), 1);
    let notified = tally();
    let in_callback = notified.clone();
    let polls = tally();
    let mut connection = GracefulConnection::new(
        Watched { polls: polls.clone() },
        graceful_subscription,
        move |_: Pin<&mut Watched>| bump(&in_callback),
        cancel_subscription,
        handle,
    );
    assert_eq!(read(&notified), 0);
    assert_eq!(read(&polls), 0);
    assert!(matches!(poll_once(&mut connection), Poll::Ready(Err(ForcefullyClosed))));
    assert_eq!(read(&notified), 1);
    assert_eq!(read(&polls), 0);

    // The handle it was given was the only one: the counter drains with it.
    let mut cx = Context::from_waker(Waker::noop());
    assert!(watcher.poll_recv(&mut cx).is_pending());
    drop(connection);
    assert!(matches!(watcher.poll_recv(&mut cx), Poll::Ready(None)));
}

#[test]
fn subscriptions_are_not_stored_in_each_other_s_place() {
    let (graceful, _) = broadcast::channel::<()>(1);
    let (cancel, _) = broadcast::channel::<()>(1);
    let (handle, _watcher) = mpsc::channel::<()>(1);
    let notified = tally();
    let in_callback = notified.clone();
    let mut connection = GracefulConnection::new(
        pending::<()>(),
        graceful.subscribe(),
        move |_: Pin<&mut Pending<()>>| bump(&in_callback),
        cancel.subscribe(),
        handle,
    );
    assert_eq!(graceful.send(()).unwrap(), 1);
    assert!(poll_once(&mut connection).is_pending());
    assert_eq!(read(&notified), 1);
    assert_eq!(cancel.send(()).unwrap(), 1);
    assert!(matches!(poll_once(&mut connection), Poll::Ready(Err(ForcefullyClosed))));
}

#[test]
fn lagging_subscription_hears_the_signal_one_poll_later() {
    let (graceful, _) = broadcast::channel::<()>(1);
    let (cancel, _) = broadcast::channel::<()>(1);
    let (handle, _watcher) = mpsc::channel::<()>(1);
    let notified = tally();
    let in_callback = notified.clone();
    let mut connection = GracefulConnection::new(
        pending::<()>(),
        graceful.subscribe(),
        move |_: Pin<&mut Pending<()>>| bump(&in_callback),
        cancel.subscribe(),
        handle,
    );
    // Two emissions on a signal that retains one: the first read reports the lag.
    assert_eq!(graceful.send(()).unwrap(), 1);
    assert_eq!(graceful.send(()).unwrap(), 1);
    assert!(poll_once(&mut connection).is_pending());
    assert_eq!(read(&notified), 0);
    assert!(poll_once(&mut connection).is_pending());
    assert_eq!(read(&notified), 1);
    assert!(poll_once(&mut connection).is_pending());
    assert_eq!(read(&notified), 1);
}

#[test]
fn shutdown_steps_follow_what_the_signals_reached() {
    let (cancel, _) = broadcast::channel::<()>(1);
    let (_handle, watcher) = mpsc::channel::<()>(1);
    let mut shutdown = Shutdown::begun(3, cancel, watcher);
    assert!(shutdown.awaits_deadline());
    assert!(shutdown.resolve(false).is_pending());
    assert!(matches!(shutdown.resolve(true), Poll::Ready(result) if counts(&result) == (3, 0)));

    shutdown.note_cancelled(1);
    assert!(!shutdown.awaits_deadline());
    assert!(shutdown.resolve(false).is_pending());
    assert!(matches!(shutdown.resolve(true), Poll::Ready(result) if counts(&result) == (2, 1)));

    // The deadline counts once.
    shutdown.note_cancelled(3);
    assert!(matches!(shutdown.resolve(true), Poll::Ready(result) if counts(&result) == (2, 1)));
    // A handle is still live, so the drain is not seen yet.
    assert_eq!(poll_shutdown(&mut shutdown), None);
}

#[test]
fn manager_signals_retain_one_emission() {
    // A subscriber of the manager's signals that is one emission behind hears it
    // at once; the single slot is what makes the first poll after the deadline
    // the one that is forced, even when the graceful signal is still unread.
    let manager = ConnectionManager::default();
    let mut connection = manager.manage_connection(pending::<()>(), |_| {});
    let mut shutdown = manager.begin_shutdown();
    shutdown.deadline_elapsed();
    assert!(matches!(poll_once(&mut connection), Poll::Ready(Err(ForcefullyClosed))));
}
