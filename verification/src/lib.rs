//! An in-process publish/subscribe layer: messages carry named, typed
//! parameters and are addressed to an event key; a registry delivers each
//! message to every channel subscribed to its key.

pub mod param;
pub mod payload;
pub mod event;
pub mod message;
pub mod channel;
pub mod communicator;
