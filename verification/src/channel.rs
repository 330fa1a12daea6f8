//! The fan-out primitive. A conversation's channel is a broadcast channel
//! of tokio; this file holds what the library takes on trust about it.
//!
//! A `Sender` stands for the channel that it belongs to: two senders are
//! equal in a contract when they are handles on the same channel. What a
//! channel holds at a given moment is shared between all its handles and
//! is not described here.

use tokio::sync::broadcast::Receiver;
use tokio::sync::broadcast::Sender;
use vstd::prelude::*;
use crate::conversation::MessageEvent;

verus! {

/// `tokio::sync::broadcast::Sender`, the sending handle of a channel.
/// Nothing is said of what it holds.
#[verifier::external_type_specification]
#[verifier::external_body]
#[verifier::reject_recursive_types(T)]
pub struct ExSender<T>(tokio::sync::broadcast::Sender<T>);

/// `tokio::sync::broadcast::Receiver`, one subscriber's handle of a
/// channel. Nothing is said of what it holds.
#[verifier::external_type_specification]
#[verifier::external_body]
#[verifier::reject_recursive_types(T)]
pub struct ExReceiver<T>(tokio::sync::broadcast::Receiver<T>);

/// Calls `tokio::sync::broadcast::channel` and keeps the sending half; the
/// receiver that comes with it is dropped at once, so the channel starts
/// without subscribers. tokio panics on a capacity of 0 or above
/// `usize::MAX / 2`, which `requires` leaves out. Nothing is claimed of
/// the channel that comes back.
#[verifier::external_body]
pub(crate) fn open_channel(capacity: usize) -> (sender: Sender<MessageEvent>)
    requires
        0 < capacity <= usize::MAX / 2,
{
    tokio::sync::broadcast::channel(capacity).0
}

/// Calls `Sender::clone`. The clone holds the same shared channel as the
/// sender that it was made from, which is what equality of senders means
/// here.
#[verifier::external_body]
pub(crate) fn share_sender(sender: &Sender<MessageEvent>) -> (handle: Sender<MessageEvent>)
    ensures
        handle == *sender,
{
    sender.clone()
}

/// Calls `Sender::subscribe`: a new receiver, which gets the events sent
/// after this call. tokio panics when a channel already has
/// `usize::MAX / 4` receivers, more than a process can hold. Nothing is
/// claimed of the receiver that comes back.
#[verifier::external_body]
pub(crate) fn attach_receiver(sender: &Sender<MessageEvent>) -> (receiver: Receiver<MessageEvent>)
{
    sender.subscribe()
}

/// Calls `Sender::send`. The result is the number of receivers that the
/// channel had at that moment, which tokio reports only when there is at
/// least one; `None` stands for tokio's error, which it returns when there
/// is none and the event is dropped. The number depends on who else holds a
/// handle, so two calls may differ.
#[verifier::external_body]
pub(crate) fn send_event(sender: &Sender<MessageEvent>, event: MessageEvent) -> (receivers: Option<
    usize,
>)
    ensures
        receivers matches Some(n) ==> n >= 1,
{
    match sender.send(event) {
        Ok(n) => Some(n),
        Err(_) => None,
    }
}

} // verus!
