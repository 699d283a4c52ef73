//! The queue primitive: unbounded multi-producer multi-consumer channels of
//! messages. Everything here is a thin layer over `crossbeam_channel`; what a
//! channel holds at any moment is shared with every other holder of one of
//! its ends, so no contract speaks of it.

use vstd::prelude::*;
use crossbeam_channel::{Receiver, Sender, TryRecvError, TrySendError};
use crate::message::ChaosMessage;

verus! {

/// The producer end of a channel.
#[verifier::external_type_specification]
#[verifier::external_body]
#[verifier::reject_recursive_types(T)]
pub struct ExSender<T>(Sender<T>);

/// The consumer end of a channel.
#[verifier::external_type_specification]
#[verifier::external_body]
#[verifier::reject_recursive_types(T)]
pub struct ExReceiver<T>(Receiver<T>);

/// What a channel answered when a message was offered to it.
#[derive(Clone, Copy, Debug, PartialEq, Eq, Structural)]
pub enum Delivery {
    /// The message is in the queue.
    Accepted,
    /// The queue is at its capacity.
    Full,
    /// Every consumer end is gone; the channel will never accept again.
    Disconnected,
}

/// What a channel answered when it was polled.
pub enum Polled {
    /// The oldest queued message, now taken out of the queue.
    Message(ChaosMessage),
    /// Nothing is queued.
    Empty,
    /// Nothing is queued and every producer end is gone.
    Disconnected,
}

impl Polled {
    /// The message that was taken, if one was.
    pub fn into_message(self) -> (message: Option<ChaosMessage>)
        ensures
            message == (match self {
                Polled::Message(taken) => Some(taken),
                Polled::Empty => None,
                Polled::Disconnected => None,
            }),
    {
        match self {
            Polled::Message(taken) => Some(taken),
            Polled::Empty => None,
            Polled::Disconnected => None,
        }
    }
}

/// `Sender::clone`: another producer end of the same channel.
pub assume_specification<T>[ <Sender<T> as Clone>::clone ](sender: &Sender<T>) -> (copy: Sender<T>);

/// `Receiver::clone`: another consumer end of the same channel. The two
/// compete for its messages: each message goes to one of them.
pub assume_specification<T>[ <Receiver<T> as Clone>::clone ](receiver: &Receiver<T>) -> (copy:
    Receiver<T>);

/// `crossbeam_channel::unbounded`: makes a new channel with a growable queue
/// and hands out its two ends.
#[verifier::external_body]
pub(crate) fn open_channel() -> (ends: (Sender<ChaosMessage>, Receiver<ChaosMessage>)) {
    crossbeam_channel::unbounded()
}

/// `Sender::try_send`: offers a message to the channel and returns at once,
/// whether or not the channel took it. Whether it does depends on the other
/// holders of the channel's ends.
#[verifier::external_body]
pub(crate) fn offer(sender: &Sender<ChaosMessage>, message: ChaosMessage) -> (delivery: Delivery) {
    match sender.try_send(message) {
        Ok(()) => Delivery::Accepted,
        Err(TrySendError::Full(_)) => Delivery::Full,
        Err(TrySendError::Disconnected(_)) => Delivery::Disconnected,
    }
}

/// `Receiver::is_empty`: whether the queue held nothing at the moment of the
/// call. Another consumer or a producer may change that at any time.
#[verifier::external_body]
pub(crate) fn is_empty(receiver: &Receiver<ChaosMessage>) -> (empty: bool) {
    receiver.is_empty()
}

/// `Receiver::try_recv`: takes the oldest queued message if there is one and
/// returns at once either way.
#[verifier::external_body]
pub(crate) fn poll(receiver: &Receiver<ChaosMessage>) -> (polled: Polled) {
    match receiver.try_recv() {
        Ok(message) => Polled::Message(message),
        Err(TryRecvError::Empty) => Polled::Empty,
        Err(TryRecvError::Disconnected) => Polled::Disconnected,
    }
}

} // verus!
