//! Wait slots: the one-shot channels on which a parked visitor is handed its
//! mapper stream.
//!
//! A slot is a bounded channel of `async_channel` with room for one item.
//! The sending half is parked in the wait table; the receiving half stays
//! with the task that serves the visitor.

use vstd::prelude::*;
use async_channel::{Receiver, Sender};

verus! {

/// The sending half of a channel of `async_channel`. Nothing is known of
/// what is inside.
#[verifier::external_type_specification]
#[verifier::external_body]
#[verifier::reject_recursive_types(T)]
pub struct ExSender<T>(Sender<T>);

/// The receiving half of a channel of `async_channel`. Nothing is known of
/// what is inside.
#[verifier::external_type_specification]
#[verifier::external_body]
#[verifier::reject_recursive_types(T)]
pub struct ExReceiver<T>(Receiver<T>);

/// `async_channel::bounded` with a capacity of one: a fresh channel and its
/// two halves. The capacity is not zero, so the call does not panic.
#[verifier::external_body]
pub(crate) fn open_slot<T>() -> (halves: (Sender<T>, Receiver<T>)) {
    async_channel::bounded(1)
}

/// `Sender::close` of `async_channel`: closes the channel, so that whoever
/// waits on the other half is woken with an error. The answer says whether
/// this call closed it or it was closed before.
#[verifier::external_body]
pub(crate) fn close_slot<T>(slot: &Sender<T>) -> (closed_now: bool) {
    slot.close()
}

} // verus!
