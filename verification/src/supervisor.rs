//! The reconnection supervisor's policy, and the status signal it shows the
//! caller.
//!
//! The subscription is a long-lived background facility: after any terminal
//! failure — a failed handshake or a terminated loop — the supervisor waits
//! a fixed delay and connects again with the same topics and options,
//! without bound, without backoff and without giving up. The caller learns
//! of connectivity transitions through a status signal, never through the
//! event sequence ending.

use vstd::prelude::*;
use crate::pump::ConnectionState;

verus! {

/// The connectivity transition shown to the caller.
#[derive(Debug, Clone, PartialEq)]
pub enum StatusSignal {
    Connected,
    Errored(String),
    Disconnected,
}

/// The supervisor's whole policy: one fixed delay between attempts.
#[derive(Debug, Clone, PartialEq)]
pub struct Supervisor {
    pub retry_delay_ms: u64,
}

impl Supervisor {
    /// A supervisor that waits the given delay between attempts.
    pub fn new(retry_delay_ms: u64) -> (r: Supervisor)
        ensures
            r.retry_delay_ms == retry_delay_ms,
    {
        Supervisor { retry_delay_ms }
    }

    /// The delay before the next attempt: always the fixed one, whatever
    /// the attempt number — unbounded retries, no backoff, no jitter.
    pub fn next_delay_ms(&self, _attempt: u64) -> (r: u64)
        ensures
            r == self.retry_delay_ms,
    {
        self.retry_delay_ms
    }
}

/// The status signal for a connection state: active is connected, a failure
/// carries its reason, and a closed or not-yet-established connection is
/// disconnected.
pub fn status_of_state(state: &ConnectionState) -> (r: StatusSignal)
    ensures
        state is Active ==> r is Connected,
        state matches ConnectionState::Failed(reason) ==> r matches StatusSignal::Errored(m) && m@
            == reason@,
        state is Closed ==> r is Disconnected,
        state is Handshaking ==> r is Disconnected,
{
    match state {
        ConnectionState::Active => StatusSignal::Connected,
        ConnectionState::Failed(reason) => StatusSignal::Errored(reason.clone()),
        ConnectionState::Closed => StatusSignal::Disconnected,
        ConnectionState::Handshaking => StatusSignal::Disconnected,
    }
}

} // verus!
