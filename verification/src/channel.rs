//! The channels that join the frame loop and the worker.
//!
//! What a channel holds changes whenever the thread at its other end acts,
//! so no contract here speaks of a channel's contents: each says only what
//! holds of a single call, whatever the other side did.

use vstd::prelude::*;
use crossbeam::channel::{Receiver, Sender, TryRecvError};
use crate::event::TransportEvent;

verus! {

/// `crossbeam::channel::Sender`: the sending side of a channel.
#[verifier::external_type_specification]
#[verifier::external_body]
#[verifier::reject_recursive_types(T)]
pub struct ExSender<T>(Sender<T>);

/// `crossbeam::channel::Receiver`: the receiving side of a channel.
#[verifier::external_type_specification]
#[verifier::external_body]
#[verifier::reject_recursive_types(T)]
pub struct ExReceiver<T>(Receiver<T>);

/// `crossbeam::channel::unbounded`: a new channel without a capacity limit.
/// Nothing is claimed of its two sides.
pub assume_specification<T>[ crossbeam::channel::unbounded::<T> ]() -> (sides: (Sender<T>, Receiver<T>))
;

/// What one look into the event channel found.
#[derive(Debug)]
pub enum Polled {
    /// The oldest waiting event, now taken out of the channel.
    Event(TransportEvent),
    /// Nothing is waiting, and the worker may still send.
    Empty,
    /// Nothing is waiting, and every sender is gone.
    Disconnected,
}

/// `Receiver::try_recv`: takes the oldest waiting message, if there is one,
/// without blocking. Which of the three outcomes comes back depends on what
/// the sending side has done, so nothing is claimed of it.
#[verifier::external_body]
pub(crate) fn try_receive(receiver: &Receiver<TransportEvent>) -> (polled: Polled) {
    match receiver.try_recv() {
        Ok(event) => Polled::Event(event),
        Err(TryRecvError::Empty) => Polled::Empty,
        Err(TryRecvError::Disconnected) => Polled::Disconnected,
    }
}

/// `Sender::try_send`: puts the message into the channel if it can do so at
/// once, and hands it back otherwise; it neither blocks nor fails in another
/// way. A channel without a capacity limit hands a message back only when
/// every receiver is gone. Whether the message is taken depends on the
/// receiving side; what is claimed is that a message handed back is the one
/// that was offered.
#[verifier::external_body]
pub(crate) fn offer<T>(sender: &Sender<T>, message: T) -> (refused: Option<T>)
    ensures
        refused is Some ==> refused == Some(message),
{
    match sender.try_send(message) {
        Ok(()) => None,
        Err(error) => Some(error.into_inner()),
    }
}

} // verus!
