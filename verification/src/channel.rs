//! Trusted declarations for the standard library's mpsc channels.
//!
//! The controller and the polling loop talk only through two such channels
//! (stop signals one way, decoded events the other); vstd gives
//! `std::sync::mpsc` no specification, so the endpoint types and the few
//! calls the library makes are declared here. What travels on a channel
//! depends on the thread at the other end, so the contracts state nothing
//! about the values; every property of the delivered events is proved of
//! the code that produces them.

use std::sync::mpsc::{Receiver, Sender};
use vstd::prelude::*;

verus! {

/// The sending endpoint of a standard mpsc channel, declared so that it can
/// stand in the controller's fields.
#[verifier::external_type_specification]
#[verifier::external_body]
#[verifier::reject_recursive_types(T)]
pub struct ExSender<T>(Sender<T>);

/// The receiving endpoint of a standard mpsc channel, declared so that it
/// can stand in the controller's fields.
#[verifier::external_type_specification]
#[verifier::external_body]
#[verifier::reject_recursive_types(T)]
pub struct ExReceiver<T>(Receiver<T>);

/// Relies on std::sync::mpsc::channel: returns the two endpoints of a fresh
/// asynchronous channel. Nothing is stated of them; no value a verified
/// caller needs depends on which endpoints it got.
pub assume_specification<T>[ std::sync::mpsc::channel::<T> ]() -> (endpoints: (
    Sender<T>,
    Receiver<T>,
));

/// Relies on std::sync::mpsc::Sender::send: queues the value unless the
/// receiving end has been dropped, and never blocks. Whether the send
/// succeeds depends on the other thread, so nothing is stated of the
/// result.
#[verifier::external_body]
pub(crate) fn channel_send<T>(sender: &Sender<T>, value: T) -> (ok: bool) {
    sender.send(value).is_ok()
}

/// Relies on std::sync::mpsc::Receiver::try_recv: returns a queued value if
/// one is immediately available and nothing otherwise, and never blocks or
/// panics. Which case occurs depends on the sending thread, so nothing is
/// stated of the result.
#[verifier::external_body]
pub(crate) fn channel_try_recv<T>(receiver: &Receiver<T>) -> (received: Option<T>) {
    receiver.try_recv().ok()
}

} // verus!
