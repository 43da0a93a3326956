//! Client library for a publish/subscribe event broker.
//!
//! The library models the broker's wire protocol (subscribe, ack and nack
//! frames out; subscribed, event and error frames in), the handshake and
//! multiplexed-loop decisions of a durable subscription, and the validation
//! and classification logic of the one-shot publish call. Transport I/O is
//! left to the embedding application; every decision the protocol requires
//! is made here, under a contract.

pub mod client;
pub mod clock;
pub mod codec;
pub mod decode;
pub mod error;
pub mod json;
pub mod pump;
pub mod supervisor;
pub mod types;
