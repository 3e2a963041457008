//! Trusted boundary around `std::sync::mpsc`.
//!
//! A waiter is represented by a one-shot notification channel: a
//! `sync_channel` of capacity one. The sending half is kept in the slot
//! until a write delivers through it (or the registration is abandoned);
//! the receiving half is handed to the blocked caller. The library sends at
//! most one value per sender — a slot discards every sender as soon as it
//! has attempted a delivery on it — so a send never finds the buffer full
//! and never blocks.

use vstd::prelude::*;

use std::sync::mpsc::{Receiver, RecvError, SendError, SyncSender};

verus! {

#[verifier::external_type_specification]
#[verifier::external_body]
#[verifier::reject_recursive_types(T)]
pub struct ExSyncSender<T>(SyncSender<T>);

#[verifier::external_type_specification]
#[verifier::external_body]
#[verifier::reject_recursive_types(T)]
pub struct ExReceiver<T>(Receiver<T>);

#[verifier::external_type_specification]
pub struct ExSendError<T>(SendError<T>);

#[verifier::external_type_specification]
pub struct ExRecvError(RecvError);

/// Relies on `std::sync::mpsc::sync_channel`: returns the sending and
/// receiving halves of a fresh channel with buffer capacity one. Which
/// channel comes back depends on the machine, so nothing is stated of the
/// result; the two halves are connected only to each other.
#[verifier::external_body]
pub(crate) fn notify_channel<T>() -> (SyncSender<T>, Receiver<T>) {
    std::sync::mpsc::sync_channel(1)
}

/// Relies on `std::sync::mpsc::SyncSender::send`: on failure — exactly when
/// the receiving half was dropped before the delivery — the error hands the
/// undelivered value back. Success means the value was placed in the
/// channel's buffer; whether it is ever received depends on the receiving
/// side, so nothing more is stated. The buffer has capacity one and this
/// library sends at most once per sender, so the call does not block.
#[verifier::external_body]
pub(crate) fn send_value<T>(sender: &SyncSender<T>, value: T) -> (r: Result<(), SendError<T>>)
    ensures
        r matches Err(e) ==> e.0 == value,
{
    sender.send(value)
}

/// Relies on `std::sync::mpsc::Receiver::recv`: blocks the calling thread
/// until a value arrives on the channel, and returns an error exactly when
/// every sending half was dropped without a value having been sent. Which
/// of the two happens, and which value arrives, depends on the other side
/// of the channel, so nothing is stated of the result.
#[verifier::external_body]
pub(crate) fn receive_value<T>(receiver: Receiver<T>) -> (r: Result<T, RecvError>) {
    receiver.recv()
}

} // verus!
