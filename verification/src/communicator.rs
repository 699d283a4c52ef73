//! The topic registry: which channels are subscribed to which event key, and
//! the delivery of a message to every channel subscribed to its key.
//!
//! Fan-out is broadcast: every registration opens a channel of its own, and a
//! message sent to a key is copied into each channel registered for it, in
//! the order of registration.
//!
//! The registry keeps the producer ends only. A subscription whose handles
//! have all been dropped leaves a closed channel behind: sending to its key
//! fails from then on, since registrations are never removed.

use vstd::prelude::*;
use crossbeam_channel::{Receiver, Sender};
use std::collections::HashMap;
use std::hash::Hash;
use crate::channel::{is_empty, offer, open_channel, poll, Delivery};
use crate::event::event_key;
use crate::message::ChaosMessage;

verus! {

/// Why a message could not be sent.
#[derive(Debug)]
pub enum ChaosCommunicationError {
    /// A channel registered for the event did not take the message.
    CouldNotSendMessage(String),
    /// No channel is registered for the event.
    NoSenderFound(String),
}

/// What an error is: its kind and the text it carries.
pub ghost enum CommunicationErrorView {
    CouldNotSendMessage(Seq<char>),
    NoSenderFound(Seq<char>),
}

/// The text carried by a failed delivery to the event named `event_name`.
pub open spec fn could_not_send_text(event_name: Seq<char>) -> Seq<char> {
    "Message could not be sent for event "@ + event_name
        + ". Likely due to channel being closed."@
}

/// The text carried when nothing is registered for the event named
/// `event_name`.
pub open spec fn no_sender_text(event_name: Seq<char>) -> Seq<char> {
    "No sender found for event "@ + event_name
}

/// The display form of an error.
pub open spec fn display_text(error: CommunicationErrorView) -> Seq<char> {
    match error {
        CommunicationErrorView::CouldNotSendMessage(text) => "Could not send message: "@ + text,
        CommunicationErrorView::NoSenderFound(text) => "No sender found: "@ + text,
    }
}

/// What sending to the event named `event_name` comes to once a channel has
/// answered `delivery`.
pub open spec fn delivery_result(delivery: Delivery, event_name: Seq<char>) -> Result<
    (),
    CommunicationErrorView,
> {
    match delivery {
        Delivery::Accepted => Ok(()),
        Delivery::Full => Err(
            CommunicationErrorView::CouldNotSendMessage(could_not_send_text(event_name)),
        ),
        Delivery::Disconnected => Err(
            CommunicationErrorView::CouldNotSendMessage(could_not_send_text(event_name)),
        ),
    }
}

/// The view of a result of sending.
pub open spec fn result_view(result: Result<(), ChaosCommunicationError>) -> Result<
    (),
    CommunicationErrorView,
> {
    match result {
        Ok(()) => Ok(()),
        Err(error) => Err(error@),
    }
}

impl View for ChaosCommunicationError {
    type V = CommunicationErrorView;

    open spec fn view(&self) -> CommunicationErrorView {
        match self {
            ChaosCommunicationError::CouldNotSendMessage(text) => {
                CommunicationErrorView::CouldNotSendMessage(text@)
            },
            ChaosCommunicationError::NoSenderFound(text) => CommunicationErrorView::NoSenderFound(
                text@,
            ),
        }
    }
}

impl ChaosCommunicationError {
    /// The error of a channel that did not take a message for the event
    /// named `event_name`.
    pub fn could_not_send(event_name: &str) -> (error: Self)
        ensures
            error@ == CommunicationErrorView::CouldNotSendMessage(could_not_send_text(event_name@)),
    {
        let text = String::from_str("Message could not be sent for event ").concat(
            event_name,
        ).concat(". Likely due to channel being closed.");
        ChaosCommunicationError::CouldNotSendMessage(text)
    }

    /// The error of sending to the event named `event_name` when nothing is
    /// registered for it.
    pub fn no_sender_found(event_name: &str) -> (error: Self)
        ensures
            error@ == CommunicationErrorView::NoSenderFound(no_sender_text(event_name@)),
    {
        let text = String::from_str("No sender found for event ").concat(event_name);
        ChaosCommunicationError::NoSenderFound(text)
    }

    /// What sending to the event named `event_name` comes to once a channel
    /// has answered `delivery`: success if it took the message, else a
    /// failed delivery.
    pub fn from_delivery(delivery: Delivery, event_name: &str) -> (result: Result<(), Self>)
        ensures
            result_view(result) == delivery_result(delivery, event_name@),
    {
        match delivery {
            Delivery::Accepted => Ok(()),
            Delivery::Full => Err(Self::could_not_send(event_name)),
            Delivery::Disconnected => Err(Self::could_not_send(event_name)),
        }
    }

    /// The display form of the error.
    pub fn to_string(&self) -> (text: String)
        ensures
            text@ == display_text(self@),
    {
        match self {
            ChaosCommunicationError::CouldNotSendMessage(message) => String::from_str(
                "Could not send message: ",
            ).concat(message.as_str()),
            ChaosCommunicationError::NoSenderFound(message) => String::from_str(
                "No sender found: ",
            ).concat(message.as_str()),
        }
    }
}

/// A subscription: the consumer end of one channel, polled without waiting.
pub struct ChaosReceiver {
    receiver: Receiver<ChaosMessage>,
}

impl ChaosReceiver {
    /// Takes the oldest pending message, if there is one. Never waits: with
    /// nothing pending, or with the channel closed for good, the answer is
    /// `None`.
    pub fn receive(&mut self) -> (message: Option<ChaosMessage>)
        ensures
            *final(self) == *old(self),
    {
        if is_empty(&self.receiver) {
            return None;
        }
        poll(&self.receiver).into_message()
    }
}

/// The registry: for each event key, the producer ends of the channels
/// registered for it, in the order of registration.
pub struct ChaosCommunicator {
    senders: HashMap<u64, Vec<Sender<ChaosMessage>>>,
}

impl ChaosCommunicator {
    /// Every key that is listed has at least one channel.
    #[verifier::type_invariant]
    spec fn well_formed(self) -> bool {
        forall|key: u64|
            #[trigger] self.senders@.dom().contains(key) ==> self.senders@[key]@.len() > 0
    }

    /// The channels registered for `key`, oldest registration first.
    pub closed spec fn subscribers(&self, key: u64) -> Seq<Sender<ChaosMessage>> {
        if self.senders@.dom().contains(key) {
            self.senders@[key]@
        } else {
            Seq::empty()
        }
    }

    /// Whether anything is registered for `key`.
    pub open spec fn has_route(&self, key: u64) -> bool {
        self.subscribers(key).len() > 0
    }

    /// A registry with no registrations.
    pub fn new() -> (communicator: Self)
        ensures
            forall|key: u64|
                #[trigger] communicator.subscribers(key) == Seq::<Sender<ChaosMessage>>::empty(),
    {
        ChaosCommunicator { senders: HashMap::new() }
    }

    /// Registers for the event key `key`: opens a new channel, appends its
    /// producer end to the key's subscribers and hands out its consumer end.
    /// Earlier registrations, for this key and for others, stay as they are.
    pub fn register_for_key(&mut self, key: u64) -> (receiver: ChaosReceiver)
        ensures
            final(self).has_route(key),
            final(self).subscribers(key).len() == old(self).subscribers(key).len() + 1,
            final(self).subscribers(key).drop_last() == old(self).subscribers(key),
            forall|other: u64|
                other != key ==> #[trigger] final(self).subscribers(other) == old(self).subscribers(
                    other,
                ),
    {
        proof {
            use_type_invariant(&*self);
        }
        let (sender, receiver) = open_channel();
        // The table is taken out while it is updated and put back whole.
        let mut senders: HashMap<u64, Vec<Sender<ChaosMessage>>> = HashMap::new();
        std::mem::swap(&mut self.senders, &mut senders);
        let mut subscribers = match senders.remove(&key) {
            Some(earlier) => earlier,
            None => Vec::new(),
        };
        subscribers.push(sender);
        senders.insert(key, subscribers);
        self.senders = senders;
        ChaosReceiver { receiver }
    }

    /// Registers for the event described by `event`, under the key derived
    /// from it.
    pub fn register_for<T: Hash>(&mut self, event: T) -> (receiver: ChaosReceiver)
        ensures
            exists|key: u64|
                {
                    &&& #[trigger] final(self).has_route(key)
                    &&& final(self).subscribers(key).len() == old(self).subscribers(key).len() + 1
                    &&& final(self).subscribers(key).drop_last() == old(self).subscribers(key)
                    &&& forall|other: u64|
                        other != key ==> final(self).subscribers(other) == old(self).subscribers(
                            other,
                        )
                },
    {
        let key = event_key(&event);
        self.register_for_key(key)
    }

    /// Sends `message` to every channel registered for its event key, oldest
    /// registration first, each channel getting a copy of its own. Stops at
    /// the first channel that does not take it.
    ///
    /// Fails with `NoSenderFound` exactly when nothing is registered for the
    /// key, and with `CouldNotSendMessage` when a registered channel refused;
    /// both carry the display form of the message's event descriptor.
    pub fn send_message(&self, message: ChaosMessage) -> (result: Result<
        (),
        ChaosCommunicationError,
    >)
        ensures
            match result {
                Ok(()) => self.has_route(message@.event),
                Err(error) => error@ == (if self.has_route(message@.event) {
                    CommunicationErrorView::CouldNotSendMessage(
                        could_not_send_text(message@.event_name),
                    )
                } else {
                    CommunicationErrorView::NoSenderFound(no_sender_text(message@.event_name))
                }),
            },
    {
        proof {
            use_type_invariant(self);
        }
        let event = message.get_event();
        match self.senders.get(&event) {
            Some(subscribers) => {
                let mut i: usize = 0;
                while i < subscribers.len()
                    invariant
                        i <= subscribers.len(),
                        self.has_route(message@.event),
                    decreases subscribers.len() - i,
                {
                    let delivery = offer(&subscribers[i], message.clone());
                    let outcome = ChaosCommunicationError::from_delivery(
                        delivery,
                        message.get_event_name(),
                    );
                    if let Err(error) = outcome {
                        return Err(error);
                    }
                    i += 1;
                }
                Ok(())
            },
            None => Err(ChaosCommunicationError::no_sender_found(message.get_event_name())),
        }
    }
}

impl Clone for ChaosCommunicationError {
    /// The same kind of error with the same text.
    fn clone(&self) -> (copy: Self)
        ensures
            copy@ == self@,
    {
        match self {
            ChaosCommunicationError::CouldNotSendMessage(text) => {
                ChaosCommunicationError::CouldNotSendMessage(text.clone())
            },
            ChaosCommunicationError::NoSenderFound(text) => ChaosCommunicationError::NoSenderFound(
                text.clone(),
            ),
        }
    }
}

impl Clone for ChaosReceiver {
    /// A second handle on the same channel. The two compete for its
    /// messages: each message goes to whichever polls it first.
    fn clone(&self) -> (copy: Self) {
        ChaosReceiver { receiver: self.receiver.clone() }
    }
}

impl Clone for ChaosCommunicator {
    /// A second registry over the same channels: it lists, for every key, the
    /// producer ends this one lists. Registrations made later on either of
    /// the two are not seen by the other.
    fn clone(&self) -> (copy: Self)
        ensures
            forall|key: u64| copy.subscribers(key) == self.subscribers(key),
    {
        proof {
            use_type_invariant(self);
        }
        ChaosCommunicator { senders: self.senders.clone() }
    }
}

} // verus!
