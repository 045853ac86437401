//! Bindings to the parts of `std::pin`, `std::task` and `std::future` that a
//! hand-written future needs.

use std::future::Future;
use std::pin::Pin;
use std::task::Context;
use std::task::Poll;
use vstd::prelude::*;

verus! {

/// `std::task::Poll`, with its two variants visible to the verifier.
#[verifier::external_type_specification]
#[verifier::reject_recursive_types(T)]
pub struct ExPoll<T>(Poll<T>);

/// `std::pin::Pin`, opaque to the verifier.
#[verifier::external_type_specification]
#[verifier::external_body]
#[verifier::reject_recursive_types(Ptr)]
pub struct ExPin<Ptr>(Pin<Ptr>);

/// `std::task::Context`, opaque to the verifier.
#[verifier::external_type_specification]
#[verifier::external_body]
pub struct ExContext<'a>(Context<'a>);

/// `Box::pin` moves a value to the heap and pins it there. Nothing is claimed of
/// the pinned box.
#[verifier::external_body]
pub(crate) fn pin_boxed<T>(value: T) -> (pinned: Pin<Box<T>>) {
    Box::pin(value)
}

/// `Pin::get_mut` gives plain mutable access to a pinned value that may be moved.
/// Nothing is claimed of the reference.
#[verifier::external_body]
pub(crate) fn unpinned<'a, T: Unpin>(pinned: Pin<&'a mut T>) -> (plain: &'a mut T) {
    Pin::get_mut(pinned)
}

/// `Pin::as_mut` reborrows a pinned box as a pinned mutable reference to what it
/// holds. Nothing is claimed of the reference.
#[verifier::external_body]
pub(crate) fn pinned_mut<T>(boxed: &mut Pin<Box<T>>) -> (pinned: Pin<&mut T>) {
    Pin::as_mut(boxed)
}

/// `Future::poll` on a pinned future. What it returns is the future's own
/// business, so nothing is claimed of it.
#[verifier::external_body]
pub(crate) fn poll_pinned<T: Future>(future: Pin<&mut T>, cx: &mut Context<'_>) -> (polled: Poll<
    T::Output,
>) {
    Future::poll(future, cx)
}

/// Calls the caller's callback with exclusive, pinned access to the future. What
/// the callback does to the future is the caller's business, so nothing is
/// claimed of it.
#[verifier::external_body]
pub(crate) fn call_pinned<T, F: FnOnce(Pin<&mut T>)>(callback: F, future: Pin<&mut T>) {
    callback(future)
}

} // verus!
