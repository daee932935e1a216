//! Trusted boundary around the one-shot delivery channel.
//!
//! The worker thread delivers its single result through a
//! `std::sync::mpsc` channel. The channel's shared state is not modelled;
//! the wrappers below state only what the channel's documentation promises
//! of every outcome, and the adapter's own contracts are proved from that.

use vstd::prelude::*;

verus! {

#[verifier::external_type_specification]
#[verifier::external_body]
#[verifier::reject_recursive_types(T)]
pub struct ExSender<T>(std::sync::mpsc::Sender<T>);

#[verifier::external_type_specification]
#[verifier::external_body]
#[verifier::reject_recursive_types(T)]
pub struct ExReceiver<T>(std::sync::mpsc::Receiver<T>);

/// Relies on std::sync::mpsc::channel: returns the paired producer and
/// consumer endpoints of a fresh channel.
#[verifier::external_body]
pub(crate) fn new_channel<T>() -> (std::sync::mpsc::Sender<T>, std::sync::mpsc::Receiver<T>) {
    std::sync::mpsc::channel()
}

/// Relies on std::sync::mpsc::Sender::send: hands one value to the channel
/// without blocking; it fails only when the consumer endpoint has been
/// dropped, and then returns the undelivered value.
#[verifier::external_body]
pub(crate) fn send_value<T>(tx: &std::sync::mpsc::Sender<T>, v: T) -> (r: Result<(), T>)
    ensures
        (r matches Err(w) ==> w == v),
{
    match tx.send(v) {
        Ok(()) => Ok(()),
        Err(std::sync::mpsc::SendError(value)) => Err(value),
    }
}

/// Relies on std::sync::mpsc::Receiver::try_recv: a non-blocking check that
/// returns a delivered value if one is waiting and nothing otherwise; it
/// never waits for the producer.
#[verifier::external_body]
pub(crate) fn try_recv_value<T>(rx: &std::sync::mpsc::Receiver<T>) -> Option<T> {
    match rx.try_recv() {
        Ok(v) => Some(v),
        Err(_) => None,
    }
}

} // verus!
