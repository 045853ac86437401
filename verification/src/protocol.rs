//! The shutdown protocol as a whole.
//!
//! The channels that carry the signals and the count are shared between tasks,
//! and no contract of a single call can say what another task did to them. This
//! module therefore describes the protocol as a state machine of its own. A
//! [`Fleet`] is a manager with the connections it has wrapped. A signal is the
//! number of times it was emitted, and a subscription remembers how many
//! emissions it is past. A signal retains one emission, so a subscription that
//! is one emission behind answers to it once, and one that is further behind
//! has lagged: it reports the lag instead of the signal and answers on its next
//! read. The counter is the number of connections that are live, and one more
//! while the manager holds its own handle.
//!
//! A connection is polled exactly as [`poll_step`](crate::connection::poll_step)
//! says, fed with what its subscriptions answer in the fleet, and a shutdown
//! reports exactly what [`ShutdownProgress`](crate::manager::ShutdownProgress)
//! says, fed with the subscriber counts of the fleet. What the protocol
//! guarantees under every schedule is proved in [`guarantees`](crate::guarantees).

use crate::connection::poll_step;
use crate::connection::ConnectionState;
use std::task::Poll;
use vstd::prelude::*;

verus! {

/// What has become of a managed connection.
pub enum Fate {
    /// It has not resolved yet and holds its counting handle.
    Live,
    /// Its wrapped future completed.
    Completed,
    /// It resolved to forced closure.
    Forced,
    /// It was dropped before it resolved.
    Dropped,
}

/// A managed connection as the protocol sees it.
pub struct Member {
    /// What the connection remembers between polls.
    pub state: ConnectionState,
    /// The number of graceful emissions its subscription is past: those that
    /// preceded it and those it has read.
    pub graceful_seen: nat,
    /// The number of cancel emissions its subscription is past.
    pub cancel_seen: nat,
    /// How often its shutdown callback has run.
    pub callbacks: nat,
    /// What has become of it.
    pub fate: Fate,
}

/// What can happen to a fleet.
pub enum Event {
    /// The manager wraps another connection.
    Wrap,
    /// The scheduler polls a connection; `inner_ready` says whether the wrapped
    /// future would complete on this poll.
    Poll { member: int, inner_ready: bool },
    /// A connection is dropped without having resolved.
    Discard { member: int },
    /// The graceful signal is emitted.
    EmitGraceful,
    /// The cancel signal is emitted.
    EmitCancel,
    /// The manager releases its own counting handle.
    ReleaseHandle,
}

/// A manager together with every connection it has wrapped.
pub struct Fleet {
    /// How often the graceful signal has been emitted.
    pub graceful_emissions: nat,
    /// How often the cancel signal has been emitted.
    pub cancel_emissions: nat,
    /// The manager still holds its own counting handle.
    pub manager_handle: bool,
    /// The connections in the order in which they were wrapped.
    pub members: Seq<Member>,
}

/// Whether a subscription that is past `seen` emissions answers that the signal
/// has fired, when `emissions` have been made. It does when exactly one emission
/// waits for it. When none does there is nothing to read, and when more do the
/// signal, which retains one, has overwritten what the subscription was to read
/// next: the read reports the lag and not the signal.
pub open spec fn fires(seen: nat, emissions: nat) -> bool {
    emissions == seen + 1
}

/// The number of emissions a subscription is past after it was read. A read that
/// fires or finds nothing leaves it past every emission; a read that lags leaves
/// it before the one emission that is retained.
pub open spec fn after_read(seen: nat, emissions: nat) -> nat {
    if emissions > seen + 1 {
        (emissions - 1) as nat
    } else {
        emissions
    }
}

impl Member {
    /// A connection wrapped after the given numbers of emissions.
    pub open spec fn wrapped(graceful_emissions: nat, cancel_emissions: nat) -> Member {
        Member {
            state: ConnectionState::fresh(),
            graceful_seen: graceful_emissions,
            cancel_seen: cancel_emissions,
            callbacks: 0,
            fate: Fate::Live,
        }
    }

    pub open spec fn is_live(self) -> bool {
        self.fate is Live
    }

    /// Live and still subscribed to the graceful signal.
    pub open spec fn awaits_graceful(self) -> bool {
        self.is_live() && self.state.subscribed
    }

    /// What the connection is after one poll, given the emissions so far and
    /// whether the wrapped future would complete.
    pub open spec fn polled(
        self,
        graceful_emissions: nat,
        cancel_emissions: nat,
        inner_ready: bool,
    ) -> Member {
        let graceful = fires(self.graceful_seen, graceful_emissions);
        let cancel = fires(self.cancel_seen, cancel_emissions);
        let inner = if inner_ready {
            Poll::Ready(())
        } else {
            Poll::Pending
        };
        let (state, answer) = poll_step(self.state, graceful, cancel, inner);
        Member {
            state,
            graceful_seen: if self.state.subscribed {
                after_read(self.graceful_seen, graceful_emissions)
            } else {
                self.graceful_seen
            },
            cancel_seen: after_read(self.cancel_seen, cancel_emissions),
            callbacks: if self.state.runs_callback(graceful) {
                self.callbacks + 1
            } else {
                self.callbacks
            },
            fate: match answer {
                Poll::Ready(Err(_)) => Fate::Forced,
                Poll::Ready(Ok(_)) => Fate::Completed,
                Poll::Pending => Fate::Live,
            },
        }
    }

    /// What holds of every connection in a fleet with the given emissions: no
    /// subscription is ahead of its signal, and the callback has run if and only
    /// if the connection has given up its graceful subscription, which takes an
    /// emission.
    pub open spec fn wf(self, graceful_emissions: nat, cancel_emissions: nat) -> bool {
        &&& self.state.wf()
        &&& self.graceful_seen <= graceful_emissions
        &&& self.cancel_seen <= cancel_emissions
        &&& self.state.subscribed ==> self.callbacks == 0
        &&& !self.state.subscribed ==> self.callbacks == 1 && graceful_emissions > 0
    }
}

/// How many of `members` satisfy `which`.
pub open spec fn count(members: Seq<Member>, which: spec_fn(Member) -> bool) -> nat
    decreases members.len(),
{
    if members.len() == 0 {
        0
    } else {
        count(members.drop_last(), which) + if which(members.last()) {
            1nat
        } else {
            0nat
        }
    }
}

impl Fleet {
    /// A new manager: nothing emitted, nothing wrapped, its own handle held.
    pub open spec fn new() -> Fleet {
        Fleet {
            graceful_emissions: 0,
            cancel_emissions: 0,
            manager_handle: true,
            members: Seq::empty(),
        }
    }

    pub open spec fn has(self, member: int) -> bool {
        0 <= member < self.members.len()
    }

    pub open spec fn is_live(self, member: int) -> bool {
        self.has(member) && self.members[member].is_live()
    }

    /// The number of connections that have not resolved or been dropped.
    pub open spec fn live_count(self) -> nat {
        count(self.members, |m: Member| m.is_live())
    }

    /// The number of subscribers an emission of the graceful signal reaches.
    pub open spec fn graceful_subscribers(self) -> nat {
        count(self.members, |m: Member| m.awaits_graceful())
    }

    /// The number of subscribers an emission of the cancel signal reaches.
    pub open spec fn cancel_subscribers(self) -> nat {
        self.live_count()
    }

    /// The number of counting handles alive, the manager's own included.
    pub open spec fn handles(self) -> nat {
        self.live_count() + if self.manager_handle {
            1nat
        } else {
            0nat
        }
    }

    /// The drain is complete exactly when no counting handle is left.
    pub open spec fn drained(self) -> bool {
        self.handles() == 0
    }

    pub open spec fn wf(self) -> bool {
        forall|i: int|
            0 <= i < self.members.len() ==> (#[trigger] self.members[i]).wf(
                self.graceful_emissions,
                self.cancel_emissions,
            )
    }

    /// The fleet after `event`. Polling or dropping a connection that is not live
    /// changes nothing.
    pub open spec fn step(self, event: Event) -> Fleet {
        match event {
            Event::Wrap => Fleet {
                members: self.members.push(
                    Member::wrapped(self.graceful_emissions, self.cancel_emissions),
                ),
                ..self
            },
            Event::Poll { member, inner_ready } => if self.is_live(member) {
                Fleet {
                    members: self.members.update(
                        member,
                        self.members[member].polled(
                            self.graceful_emissions,
                            self.cancel_emissions,
                            inner_ready,
                        ),
                    ),
                    ..self
                }
            } else {
                self
            },
            Event::Discard { member } => if self.is_live(member) {
                Fleet {
                    members: self.members.update(
                        member,
                        Member { fate: Fate::Dropped, ..self.members[member] },
                    ),
                    ..self
                }
            } else {
                self
            },
            Event::EmitGraceful => Fleet {
                graceful_emissions: self.graceful_emissions + 1,
                ..self
            },
            Event::EmitCancel => Fleet { cancel_emissions: self.cancel_emissions + 1, ..self },
            Event::ReleaseHandle => Fleet { manager_handle: false, ..self },
        }
    }

    /// The fleet after `events`, in order.
    pub open spec fn run(self, events: Seq<Event>) -> Fleet
        decreases events.len(),
    {
        if events.len() == 0 {
            self
        } else {
            self.step(events.first()).run(events.drop_first())
        }
    }

    /// The fleet once a shutdown has begun: the graceful signal emitted and the
    /// manager's handle released.
    pub open spec fn shutting_down(self) -> Fleet {
        self.step(Event::EmitGraceful).step(Event::ReleaseHandle)
    }
}

/// Whether `event` polls or drops the connection `member`.
pub open spec fn touches(event: Event, member: int) -> bool {
    match event {
        Event::Poll { member: polled, .. } => polled == member,
        Event::Discard { member: dropped } => dropped == member,
        _ => false,
    }
}

/// None of `events` polls or drops the connection `member`.
pub open spec fn leave_alone(events: Seq<Event>, member: int) -> bool {
    forall|k: int| 0 <= k < events.len() ==> !touches(#[trigger] events[k], member)
}

/// None of `events` is `event`.
pub open spec fn without(events: Seq<Event>, event: Event) -> bool {
    forall|k: int| 0 <= k < events.len() ==> #[trigger] events[k] != event
}

} // verus!
