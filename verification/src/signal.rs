//! The shutdown signals: unit events broadcast to every subscriber.
//!
//! Each signal is a tokio broadcast channel of capacity one. The manager keeps the
//! sending half; every managed connection holds a receiving half that it reads
//! without blocking on each poll.

use tokio::sync::broadcast;
use vstd::prelude::*;

verus! {

/// The sending half of a tokio broadcast channel, opaque to the verifier.
#[verifier::external_type_specification]
#[verifier::external_body]
#[verifier::reject_recursive_types(T)]
pub struct ExSignalSender<T>(broadcast::Sender<T>);

/// The receiving half of a tokio broadcast channel, opaque to the verifier.
#[verifier::external_type_specification]
#[verifier::external_body]
#[verifier::reject_recursive_types(T)]
pub struct ExSignalReceiver<T>(broadcast::Receiver<T>);

/// The error of `broadcast::Sender::send`: it hands the unsent value back.
#[verifier::external_type_specification]
#[verifier::external_body]
#[verifier::reject_recursive_types(T)]
pub struct ExSendError<T>(broadcast::error::SendError<T>);

/// The error of `broadcast::Receiver::try_recv`: empty, closed or lagged.
#[verifier::external_type_specification]
#[verifier::external_body]
pub struct ExTryRecvError(broadcast::error::TryRecvError);

/// The capacity that a signal's channel was made with. It is fixed when the
/// channel is made. A channel retains that many emissions, rounded up to a power
/// of two, for a subscriber that has not read them: made with one, it retains
/// its most recent emission only.
pub uninterp spec fn retained(signal: broadcast::Sender<()>) -> nat;

/// `tokio::sync::broadcast::channel`, for unit values, creates a channel that
/// retains `capacity` values, rounded up to a power of two, and returns its two
/// halves. It panics on a capacity of zero or above half of `usize::MAX`; the
/// precondition excludes both. All that is claimed is that the channel was made
/// with the capacity asked for, which [`retained`] names.
#[verifier::external_body]
pub(crate) fn unit_channel(capacity: usize) -> (halves: (
    broadcast::Sender<()>,
    broadcast::Receiver<()>,
))
    requires
        0 < capacity <= usize::MAX / 2,
    ensures
        retained(halves.0) == capacity,
{
    broadcast::channel::<()>(capacity)
}

/// `broadcast::Sender::send` stores the value for every receiver subscribed at
/// that moment and returns their number, or fails when there is none. The count
/// depends on what other tasks have subscribed and dropped, so all that is claimed
/// is that a successful send reached at least one receiver.
pub assume_specification<T>[ broadcast::Sender::<T>::send ](
    sender: &broadcast::Sender<T>,
    value: T,
) -> (sent: Result<usize, broadcast::error::SendError<T>>)
    ensures
        sent matches Ok(receivers) ==> receivers >= 1,
;

/// `broadcast::Sender::subscribe` creates a receiver that sees only values sent
/// after this call. It panics only with `usize::MAX >> 2` receivers alive at
/// once, which is more than memory holds. Nothing is claimed of the receiver.
pub assume_specification<T>[ broadcast::Sender::<T>::subscribe ](
    sender: &broadcast::Sender<T>,
) -> (receiver: broadcast::Receiver<T>)
;

/// `broadcast::Receiver::try_recv` returns a waiting value without blocking, or
/// says why there is none. Whether a value waits depends on what the sender has
/// done, so nothing is claimed of the answer.
pub assume_specification<T: Clone>[ broadcast::Receiver::<T>::try_recv ](
    receiver: &mut broadcast::Receiver<T>,
) -> (read: Result<T, broadcast::error::TryRecvError>)
;

/// The number of values a signal may retain: only its most recent emission.
pub const SIGNAL_CAPACITY: usize = 1;

/// How many subscribers an emission reached. Emitting to nobody is no failure:
/// it reaches zero subscribers.
pub open spec fn reached(sent: Result<usize, broadcast::error::SendError<()>>) -> nat {
    match sent {
        Ok(receivers) => receivers as nat,
        Err(_) => 0,
    }
}

/// Keeps the sending half of a new channel and lets go of the receiver that came
/// with it, so that the signal starts without a subscriber.
pub fn unsubscribed(halves: (broadcast::Sender<()>, broadcast::Receiver<()>)) -> (signal:
    broadcast::Sender<()>)
    ensures
        signal == halves.0,
{
    let (signal, _) = halves;
    signal
}

/// Creates a signal that nobody is subscribed to yet and that retains only its
/// most recent emission.
pub(crate) fn new_signal() -> (signal: broadcast::Sender<()>)
    ensures
        retained(signal) == SIGNAL_CAPACITY,
{
    unsubscribed(unit_channel(SIGNAL_CAPACITY))
}

/// Whether the answer of a subscription says that the signal has fired. Only a
/// received emission does: an empty, closed or lagging subscription has not
/// fired.
pub fn fired(read: Result<(), broadcast::error::TryRecvError>) -> (seen: bool)
    ensures
        seen == (read is Ok),
{
    read.is_ok()
}

/// Turns the answer of a send into the number of subscribers it reached.
pub fn subscribers_reached(sent: Result<usize, broadcast::error::SendError<()>>) -> (count: usize)
    ensures
        count == reached(sent),
{
    match sent {
        Ok(receivers) => receivers,
        Err(_) => 0,
    }
}

/// Emits the signal once and returns how many subscribers it reached.
pub(crate) fn emit(signal: &broadcast::Sender<()>) -> (count: usize) {
    subscribers_reached(signal.send(()))
}

} // verus!
