//! Error taxonomy of the client library.

use vstd::prelude::*;

verus! {

/// Errors reported by the client.
///
/// `Auth` covers a missing or malformed credential and rejected
/// authentication; `Api` carries an HTTP-level failure with its status code;
/// `Connection` is a transport-level connect failure; `Serialization` is a
/// frame or payload that could not be decoded; `WebSocket` is a failure of
/// the streaming connection or a protocol violation on it.
#[derive(Debug, Clone, PartialEq)]
pub enum NotifError {
    Auth(String),
    Api { status: u16, message: String },
    Connection(String),
    Serialization(String),
    WebSocket(String),
}

impl NotifError {
    /// Build an authentication error with the given message.
    pub fn auth(msg: &str) -> (r: NotifError)
        ensures
            r matches NotifError::Auth(m) && m@ == msg@,
    {
        NotifError::Auth(msg.to_owned())
    }

    /// Build an API error with the given HTTP status code and message.
    pub fn api(status: u16, message: &str) -> (r: NotifError)
        ensures
            r matches NotifError::Api { status: s, message: m } && s == status && m@ == message@,
    {
        NotifError::Api { status, message: message.to_owned() }
    }

    /// Build a transport-level connection error.
    pub fn connection(msg: &str) -> (r: NotifError)
        ensures
            r matches NotifError::Connection(m) && m@ == msg@,
    {
        NotifError::Connection(msg.to_owned())
    }

    /// Build a streaming-connection error.
    pub fn websocket(msg: &str) -> (r: NotifError)
        ensures
            r matches NotifError::WebSocket(m) && m@ == msg@,
    {
        NotifError::WebSocket(msg.to_owned())
    }
}

} // verus!
