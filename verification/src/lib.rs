//! Match events of a live football feed: the event kinds and their
//! descriptions, the message a producer publishes, and the decisions that the
//! producer, consumer and websocket services take around their I/O.

pub mod event;
mod clock;
pub mod message;
mod random;
pub mod subscriber;
pub mod decimal;
pub mod service;
pub mod registry;
pub mod session;
