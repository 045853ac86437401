//! What the shutdown protocol guarantees, proved of every schedule of the
//! [`Fleet`] state machine.

use crate::manager::ShutdownProgress;
use crate::protocol::after_read;
use crate::protocol::count;
use crate::protocol::fires;
use crate::protocol::leave_alone;
use crate::protocol::touches;
use crate::protocol::without;
use crate::protocol::Event;
use crate::protocol::Fate;
use crate::protocol::Fleet;
use crate::protocol::Member;
use vstd::prelude::*;

verus! {

/// Appending a connection adds it to the count if it qualifies.
proof fn lemma_count_push(members: Seq<Member>, member: Member, which: spec_fn(Member) -> bool)
    ensures
        count(members.push(member), which) == count(members, which) + if which(member) {
            1nat
        } else {
            0nat
        },
{
    assert(members.push(member).drop_last() =~= members);
}

/// Replacing a connection trades its place in the count for the newcomer's.
proof fn lemma_count_update(
    members: Seq<Member>,
    i: int,
    member: Member,
    which: spec_fn(Member) -> bool,
)
    requires
        0 <= i < members.len(),
    ensures
        count(members.update(i, member), which) + (if which(members[i]) {
            1nat
        } else {
            0nat
        }) == count(members, which) + (if which(member) {
            1nat
        } else {
            0nat
        }),
    decreases members.len(),
{
    let updated = members.update(i, member);
    if i == members.len() - 1 {
        assert(updated.drop_last() =~= members.drop_last());
    } else {
        lemma_count_update(members.drop_last(), i, member, which);
        assert(updated.drop_last() =~= members.drop_last().update(i, member));
    }
}

/// Two conditions that agree on every connection count the same.
proof fn lemma_count_agree(
    members: Seq<Member>,
    one: spec_fn(Member) -> bool,
    other: spec_fn(Member) -> bool,
)
    requires
        forall|i: int| 0 <= i < members.len() ==> one(#[trigger] members[i]) == other(members[i]),
    ensures
        count(members, one) == count(members, other),
    decreases members.len(),
{
    if members.len() > 0 {
        lemma_count_agree(members.drop_last(), one, other);
    }
}

/// A count is the whole length exactly when every connection qualifies.
proof fn lemma_count_all(members: Seq<Member>, which: spec_fn(Member) -> bool)
    ensures
        count(members, which) <= members.len(),
        count(members, which) == members.len() <==> forall|i: int|
            0 <= i < members.len() ==> which(#[trigger] members[i]),
    decreases members.len(),
{
    if members.len() > 0 {
        lemma_count_all(members.drop_last(), which);
        if count(members, which) == members.len() {
            assert forall|i: int| 0 <= i < members.len() implies which(#[trigger] members[i]) by {
                if i < members.len() - 1 {
                    assert(members[i] == members.drop_last()[i]);
                }
            }
        }
        if forall|i: int| 0 <= i < members.len() ==> which(#[trigger] members[i]) {
            assert forall|i: int| 0 <= i < members.drop_last().len() implies which(
                #[trigger] members.drop_last()[i],
            ) by {
                assert(members.drop_last()[i] == members[i]);
            }
        }
    }
}

/// A count is zero exactly when no connection qualifies.
proof fn lemma_count_none(members: Seq<Member>, which: spec_fn(Member) -> bool)
    ensures
        count(members, which) == 0 <==> forall|i: int|
            0 <= i < members.len() ==> !which(#[trigger] members[i]),
    decreases members.len(),
{
    if members.len() > 0 {
        lemma_count_none(members.drop_last(), which);
        if count(members, which) == 0 {
            assert forall|i: int| 0 <= i < members.len() implies !which(#[trigger] members[i]) by {
                if i < members.len() - 1 {
                    assert(members[i] == members.drop_last()[i]);
                }
            }
        }
        if forall|i: int| 0 <= i < members.len() ==> !which(#[trigger] members[i]) {
            assert forall|i: int| 0 <= i < members.drop_last().len() implies !which(
                #[trigger] members.drop_last()[i],
            ) by {
                assert(members.drop_last()[i] == members[i]);
            }
        }
    }
}

/// A poll keeps a connection well-formed.
proof fn lemma_polled_wf(
    member: Member,
    graceful_emissions: nat,
    cancel_emissions: nat,
    inner_ready: bool,
)
    requires
        member.wf(graceful_emissions, cancel_emissions),
    ensures
        member.polled(graceful_emissions, cancel_emissions, inner_ready).wf(
            graceful_emissions,
            cancel_emissions,
        ),
{
}

/// Every event keeps a fleet well-formed.
pub proof fn lemma_step_wf(fleet: Fleet, event: Event)
    requires
        fleet.wf(),
    ensures
        fleet.step(event).wf(),
{
    let next = fleet.step(event);
    assert forall|i: int| 0 <= i < next.members.len() implies (#[trigger] next.members[i]).wf(
        next.graceful_emissions,
        next.cancel_emissions,
    ) by {
        if i < fleet.members.len() {
            assert(fleet.members[i].wf(fleet.graceful_emissions, fleet.cancel_emissions));
            match event {
                Event::Poll { member, inner_ready } => {
                    if fleet.is_live(member) && member == i {
                        lemma_polled_wf(
                            fleet.members[i],
                            fleet.graceful_emissions,
                            fleet.cancel_emissions,
                            inner_ready,
                        );
                    }
                },
                _ => {},
            }
        }
    }
}

/// Every schedule keeps a fleet well-formed.
pub proof fn lemma_run_wf(fleet: Fleet, events: Seq<Event>)
    requires
        fleet.wf(),
    ensures
        fleet.run(events).wf(),
    decreases events.len(),
{
    if events.len() > 0 {
        lemma_step_wf(fleet, events.first());
        lemma_run_wf(fleet.step(events.first()), events.drop_first());
    }
}

/// What no schedule undoes: connections stay wrapped, emissions are not taken
/// back, a callback that has run has run, and a released handle stays released.
pub proof fn lemma_run_grows(fleet: Fleet, events: Seq<Event>)
    ensures
        fleet.run(events).members.len() >= fleet.members.len(),
        fleet.run(events).graceful_emissions >= fleet.graceful_emissions,
        fleet.run(events).cancel_emissions >= fleet.cancel_emissions,
        !fleet.manager_handle ==> !fleet.run(events).manager_handle,
        forall|i: int|
            0 <= i < fleet.members.len() ==> (#[trigger] fleet.run(events).members[i]).callbacks
                >= fleet.members[i].callbacks,
    decreases events.len(),
{
    if events.len() > 0 {
        let next = fleet.step(events.first());
        lemma_run_grows(next, events.drop_first());
        assert forall|i: int| 0 <= i < fleet.members.len() implies (#[trigger] fleet.run(
            events,
        ).members[i]).callbacks >= fleet.members[i].callbacks by {
            assert(next.members[i].callbacks >= fleet.members[i].callbacks);
        }
    }
}

/// A schedule without emission of a signal leaves the signal as it is.
pub proof fn lemma_run_keeps_emissions(fleet: Fleet, events: Seq<Event>)
    ensures
        without(events, Event::EmitGraceful) ==> fleet.run(events).graceful_emissions
            == fleet.graceful_emissions,
        without(events, Event::EmitCancel) ==> fleet.run(events).cancel_emissions
            == fleet.cancel_emissions,
    decreases events.len(),
{
    if events.len() > 0 {
        let next = fleet.step(events.first());
        let rest = events.drop_first();
        lemma_run_keeps_emissions(next, rest);
        if without(events, Event::EmitGraceful) {
            assert(events[0] != Event::EmitGraceful);
            assert forall|k: int| 0 <= k < rest.len() implies #[trigger] rest[k]
                != Event::EmitGraceful by {
                assert(rest[k] == events[k + 1]);
            }
        }
        if without(events, Event::EmitCancel) {
            assert(events[0] != Event::EmitCancel);
            assert forall|k: int| 0 <= k < rest.len() implies #[trigger] rest[k]
                != Event::EmitCancel by {
                assert(rest[k] == events[k + 1]);
            }
        }
    }
}

/// A schedule that leaves a connection alone leaves it as it is.
pub proof fn lemma_left_alone(fleet: Fleet, events: Seq<Event>, member: int)
    requires
        fleet.has(member),
        leave_alone(events, member),
    ensures
        fleet.run(events).has(member),
        fleet.run(events).members[member] == fleet.members[member],
    decreases events.len(),
{
    if events.len() > 0 {
        let next = fleet.step(events.first());
        assert(!touches(events[0], member));
        assert forall|k: int| 0 <= k < events.drop_first().len() implies !touches(
            #[trigger] events.drop_first()[k],
            member,
        ) by {
            assert(events.drop_first()[k] == events[k + 1]);
        }
        lemma_left_alone(next, events.drop_first(), member);
    }
}

/// While the graceful signal is not emitted again, a connection that has heard
/// every emission so far stays unnotified.
proof fn lemma_stays_unnotified(fleet: Fleet, events: Seq<Event>, member: int)
    requires
        fleet.has(member),
        fleet.members[member].callbacks == 0,
        fleet.members[member].graceful_seen >= fleet.graceful_emissions,
        without(events, Event::EmitGraceful),
    ensures
        fleet.run(events).has(member),
        fleet.run(events).members[member].callbacks == 0,
    decreases events.len(),
{
    if events.len() > 0 {
        let next = fleet.step(events.first());
        assert(events[0] != Event::EmitGraceful);
        assert forall|k: int| 0 <= k < events.drop_first().len() implies #[trigger] events.drop_first()[k]
            != Event::EmitGraceful by {
            assert(events.drop_first()[k] == events[k + 1]);
        }
        lemma_stays_unnotified(next, events.drop_first(), member);
    }
}

/// No event but a wrap adds a live connection.
proof fn lemma_step_live_count(fleet: Fleet, event: Event)
    ensures
        event is Wrap ==> fleet.step(event).live_count() == fleet.live_count() + 1,
        !(event is Wrap) ==> fleet.step(event).live_count() <= fleet.live_count(),
        event matches Event::Discard { member } && fleet.is_live(member) ==> fleet.step(
            event,
        ).live_count() + 1 == fleet.live_count(),
{
    let live = |m: Member| m.is_live();
    match event {
        Event::Wrap => {
            lemma_count_push(
                fleet.members,
                Member::wrapped(fleet.graceful_emissions, fleet.cancel_emissions),
                live,
            );
        },
        Event::Poll { member, inner_ready } => {
            if fleet.is_live(member) {
                lemma_count_update(
                    fleet.members,
                    member,
                    fleet.members[member].polled(
                        fleet.graceful_emissions,
                        fleet.cancel_emissions,
                        inner_ready,
                    ),
                    live,
                );
            }
        },
        Event::Discard { member } => {
            if fleet.is_live(member) {
                lemma_count_update(
                    fleet.members,
                    member,
                    Member { fate: Fate::Dropped, ..fleet.members[member] },
                    live,
                );
            }
        },
        _ => {},
    }
}

/// While nothing is wrapped the number of live connections does not grow.
proof fn lemma_run_live_count(fleet: Fleet, events: Seq<Event>)
    requires
        without(events, Event::Wrap),
    ensures
        fleet.run(events).live_count() <= fleet.live_count(),
    decreases events.len(),
{
    if events.len() > 0 {
        let next = fleet.step(events.first());
        assert(events[0] != Event::Wrap);
        lemma_step_live_count(fleet, events.first());
        assert forall|k: int| 0 <= k < events.drop_first().len() implies #[trigger] events.drop_first()[k]
            != Event::Wrap by {
            assert(events.drop_first()[k] == events[k + 1]);
        }
        lemma_run_live_count(next, events.drop_first());
    }
}

/// Before the graceful signal is first emitted it would reach every live
/// connection.
proof fn lemma_all_live_subscribed(fleet: Fleet)
    requires
        fleet.wf(),
        fleet.graceful_emissions == 0,
    ensures
        fleet.graceful_subscribers() == fleet.live_count(),
{
    assert forall|i: int| 0 <= i < fleet.members.len() implies (#[trigger] fleet.members[i]).awaits_graceful()
        == fleet.members[i].is_live() by {
        assert(fleet.members[i].wf(fleet.graceful_emissions, fleet.cancel_emissions));
    }
    lemma_count_agree(fleet.members, |m: Member| m.awaits_graceful(), |m: Member| m.is_live());
}

/// The drain is complete exactly when nobody holds a counting handle: the manager
/// has released its own and no connection is live.
pub proof fn drain_means_nobody_is_left(fleet: Fleet)
    ensures
        fleet.drained() <==> !fleet.manager_handle && forall|i: int|
            0 <= i < fleet.members.len() ==> !(#[trigger] fleet.members[i]).is_live(),
{
    lemma_count_none(fleet.members, |m: Member| m.is_live());
}

/// A new manager is well-formed, counts no connection, and holds one handle.
pub proof fn new_fleet_is_idle()
    ensures
        Fleet::new().wf(),
        Fleet::new().live_count() == 0,
        Fleet::new().handles() == 1,
        Fleet::new().shutting_down().drained(),
{
}

/// A subscription that has lagged answers on its next read: the lagging read
/// does not fire, and the read after it does, unless the signal is emitted again
/// in between.
pub proof fn lagging_subscription_fires_on_its_next_read(seen: nat, emissions: nat)
    requires
        emissions > seen + 1,
    ensures
        !fires(seen, emissions),
        fires(after_read(seen, emissions), emissions),
        after_read(after_read(seen, emissions), emissions) == emissions,
{
}

/// The shutdown callback of a connection never runs twice, whatever the
/// schedule: however often the connection is polled and however often the
/// graceful signal is emitted.
pub proof fn callback_never_runs_twice(fleet: Fleet, events: Seq<Event>, member: int)
    requires
        fleet.wf(),
        fleet.has(member),
    ensures
        fleet.run(events).has(member),
        fleet.run(events).members[member].callbacks <= 1,
{
    lemma_run_wf(fleet, events);
    lemma_run_grows(fleet, events);
    let last = fleet.run(events);
    assert(last.members[member].wf(last.graceful_emissions, last.cancel_emissions));
}

/// Every connection wrapped before the graceful signal is emitted has its
/// shutdown callback run exactly once.
///
/// Take any well-formed fleet and in it a live connection that holds its
/// graceful subscription and has nothing left to read on it. Once the signal is
/// emitted, and not emitted again before the connection is polled, whatever
/// happens to the other connections in the meantime, the connection's callback
/// has not run before its next poll, runs on that poll, and has still run
/// exactly once after any further schedule: polling the connection again or
/// emitting the signal again does not run it a second time.
pub proof fn callback_runs_exactly_once(
    fleet: Fleet,
    member: int,
    meanwhile: Seq<Event>,
    inner_ready: bool,
    later: Seq<Event>,
)
    requires
        fleet.wf(),
        fleet.is_live(member),
        fleet.members[member].state.subscribed,
        fleet.members[member].graceful_seen == fleet.graceful_emissions,
        leave_alone(meanwhile, member),
        without(meanwhile, Event::EmitGraceful),
    ensures
        ({
            let signalled = fleet.step(Event::EmitGraceful).run(meanwhile);
            let polled = signalled.step(Event::Poll { member, inner_ready });
            &&& signalled.members[member].callbacks == 0
            &&& polled.members[member].callbacks == 1
            &&& polled.run(later).members[member].callbacks == 1
        }),
{
    let emitted = fleet.step(Event::EmitGraceful);
    let signalled = emitted.run(meanwhile);
    let polled = signalled.step(Event::Poll { member, inner_ready });
    assert(fleet.members[member].wf(fleet.graceful_emissions, fleet.cancel_emissions));
    lemma_left_alone(emitted, meanwhile, member);
    lemma_run_keeps_emissions(emitted, meanwhile);
    lemma_step_wf(fleet, Event::EmitGraceful);
    lemma_run_wf(emitted, meanwhile);
    lemma_step_wf(signalled, Event::Poll { member, inner_ready });
    lemma_run_grows(polled, later);
    callback_never_runs_twice(polled, later, member);
}

/// A connection wrapped after the graceful signal was emitted never has its
/// callback run for that emission.
///
/// Take any well-formed fleet, whatever was emitted in it before, and wrap a
/// connection. Under every schedule in which the graceful signal is not emitted
/// again, the callback of that connection does not run.
pub proof fn late_subscriber_is_not_notified(fleet: Fleet, later: Seq<Event>)
    requires
        fleet.wf(),
        without(later, Event::EmitGraceful),
    ensures
        ({
            let newcomer = fleet.members.len() as int;
            let after = fleet.step(Event::Wrap).run(later);
            after.has(newcomer) && after.members[newcomer].callbacks == 0
        }),
{
    lemma_stays_unnotified(fleet.step(Event::Wrap), later, fleet.members.len() as int);
}

/// If every connection has gone before the deadline, the shutdown reports all of
/// them as graceful and none as forced.
///
/// Take any well-formed fleet in which the graceful signal has not been emitted,
/// with `n` live connections, and begin the shutdown. The graceful signal reaches
/// `n` subscribers. Under every schedule after which no connection is live the
/// drain is complete, and a shutdown that ends without cancelling reports
/// `(n, 0)`. Where every wrapped connection is still live when the shutdown
/// begins, `n` is the number of connections wrapped.
pub proof fn drained_in_time_counts_all_graceful(fleet: Fleet, during: Seq<Event>)
    requires
        fleet.wf(),
        fleet.graceful_emissions == 0,
    ensures
        ({
            let n = fleet.live_count();
            let signaled = fleet.graceful_subscribers();
            let waiting = fleet.shutting_down().run(during);
            &&& signaled == n
            &&& (forall|i: int|
                0 <= i < waiting.members.len() ==> !(#[trigger] waiting.members[i]).is_live())
                ==> waiting.drained()
            &&& ShutdownProgress::begun(signaled).report() == (n, 0nat)
            &&& (forall|i: int| 0 <= i < fleet.members.len() ==> (#[trigger] fleet.members[i]).is_live())
                ==> n == fleet.members.len()
        }),
{
    lemma_all_live_subscribed(fleet);
    lemma_run_grows(fleet.shutting_down(), during);
    lemma_count_all(fleet.members, |m: Member| m.is_live());
    drain_means_nobody_is_left(fleet.shutting_down().run(during));
}

/// If some connections are still live at the deadline, they are the ones counted
/// as forced, and each resolves to forced closure on its next poll.
///
/// Take any well-formed fleet in which neither signal has been emitted, with `n`
/// live connections, begin the shutdown, and let any schedule pass in which
/// nothing is wrapped, since the manager is used up, and nothing cancelled,
/// since the deadline has not come. If `k` connections are live at the deadline,
/// the cancel signal reaches `k` subscribers, `k` is at most `n`, and the
/// shutdown reports `(n - k, k)`. The cancel signal is emitted once. Each of the
/// `k`, whatever happens to the others in the meantime, is forced on its next
/// poll, even if its wrapped future would complete on that poll.
pub proof fn stragglers_are_counted_and_forced(
    fleet: Fleet,
    during: Seq<Event>,
    member: int,
    meanwhile: Seq<Event>,
    inner_ready: bool,
)
    requires
        fleet.wf(),
        fleet.graceful_emissions == 0,
        fleet.cancel_emissions == 0,
        without(during, Event::Wrap),
        without(during, Event::EmitCancel),
        leave_alone(meanwhile, member),
        without(meanwhile, Event::EmitCancel),
    ensures
        ({
            let n = fleet.live_count();
            let signaled = fleet.graceful_subscribers();
            let at_deadline = fleet.shutting_down().run(during);
            let k = at_deadline.live_count();
            let cancelled = at_deadline.cancel_subscribers();
            let cancelling = at_deadline.step(Event::EmitCancel).run(meanwhile);
            &&& signaled == n
            &&& cancelled == k
            &&& k <= n
            &&& ShutdownProgress::begun(signaled).after_deadline(cancelled).report() == (
                (n - k) as nat,
                k,
            )
            &&& at_deadline.is_live(member) ==> cancelling.step(
                Event::Poll { member, inner_ready },
            ).members[member].fate == Fate::Forced
        }),
{
    let begun = fleet.shutting_down();
    let at_deadline = begun.run(during);
    let emitted = at_deadline.step(Event::EmitCancel);
    lemma_all_live_subscribed(fleet);
    lemma_run_live_count(begun, during);
    assert(begun.members == fleet.members);
    if at_deadline.is_live(member) {
        lemma_step_wf(fleet, Event::EmitGraceful);
        lemma_step_wf(fleet.step(Event::EmitGraceful), Event::ReleaseHandle);
        lemma_run_wf(begun, during);
        assert(at_deadline.members[member].wf(
            at_deadline.graceful_emissions,
            at_deadline.cancel_emissions,
        ));
        lemma_run_keeps_emissions(begun, during);
        lemma_left_alone(emitted, meanwhile, member);
        lemma_run_keeps_emissions(emitted, meanwhile);
    }
}

/// Dropping a managed connection that was never polled releases its counting
/// handle, so the drain can proceed.
///
/// Wrapping a connection adds one handle to the count, and dropping it unpolled
/// takes that handle off again: the drain is complete afterwards exactly if it
/// would have been complete without that connection.
pub proof fn unpolled_drop_releases_the_handle(fleet: Fleet)
    ensures
        ({
            let newcomer = fleet.members.len() as int;
            let wrapped = fleet.step(Event::Wrap);
            let dropped = wrapped.step(Event::Discard { member: newcomer });
            &&& wrapped.handles() == fleet.handles() + 1
            &&& !wrapped.drained()
            &&& dropped.handles() == fleet.handles()
            &&& dropped.drained() <==> fleet.drained()
        }),
{
    let newcomer = fleet.members.len() as int;
    let wrapped = fleet.step(Event::Wrap);
    lemma_step_live_count(fleet, Event::Wrap);
    lemma_step_live_count(wrapped, Event::Discard { member: newcomer });
}

/// Dropping any live connection, polled before or not, releases its counting
/// handle; if it held the last one, the drain is complete.
pub proof fn dropped_connection_releases_its_handle(fleet: Fleet, member: int)
    requires
        fleet.is_live(member),
    ensures
        ({
            let dropped = fleet.step(Event::Discard { member });
            &&& dropped.handles() + 1 == fleet.handles()
            &&& fleet.handles() == 1 ==> dropped.drained()
        }),
{
    lemma_step_live_count(fleet, Event::Discard { member });
}

} // verus!
