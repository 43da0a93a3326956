//! Data model of the client: subscription options, delivered events, and
//! acknowledgment decisions.

use vstd::prelude::*;

verus! {

/// Options for subscribing to topics.
///
/// `auto_ack` defaults to true; `from` is the starting position ("latest",
/// "beginning", or an absolute timestamp), absent meaning the broker's
/// default; `group` names a consumer group for load-balanced delivery.
/// Immutable once a subscription begins.
#[derive(Debug, Clone)]
pub struct SubscribeOptions {
    pub auto_ack: bool,
    pub from: Option<String>,
    pub group: Option<String>,
}

impl SubscribeOptions {
    /// Create new subscribe options with defaults (auto_ack: true).
    pub fn new() -> (r: SubscribeOptions)
        ensures
            r.auto_ack == true,
            r.from is None,
            r.group is None,
    {
        SubscribeOptions { auto_ack: true, from: None, group: None }
    }

    /// Set the auto_ack option.
    pub fn auto_ack(self, auto_ack: bool) -> (r: SubscribeOptions)
        ensures
            r.auto_ack == auto_ack,
            r.from == self.from,
            r.group == self.group,
    {
        SubscribeOptions { auto_ack, ..self }
    }

    /// Set the starting position.
    pub fn from(self, from: &str) -> (r: SubscribeOptions)
        ensures
            r.auto_ack == self.auto_ack,
            r.from matches Some(f) && f@ == from@,
            r.group == self.group,
    {
        SubscribeOptions { from: Some(from.to_owned()), ..self }
    }

    /// Set the consumer group.
    pub fn group(self, group: &str) -> (r: SubscribeOptions)
        ensures
            r.auto_ack == self.auto_ack,
            r.from == self.from,
            r.group matches Some(g) && g@ == group@,
    {
        SubscribeOptions { group: Some(group.to_owned()), ..self }
    }
}

impl Default for SubscribeOptions {
    /// The default options: auto_ack enabled, no starting position, no group.
    fn default() -> (r: SubscribeOptions)
        ensures
            r.auto_ack == true,
            r.from is None,
            r.group is None,
    {
        SubscribeOptions::new()
    }
}

/// An acknowledgment decision carried from the consumer to the
/// connection-writer: either a positive acknowledgment of an event, or a
/// negative one with an optional retry delay (e.g. "5m").
#[derive(Debug, Clone, PartialEq)]
pub enum AckMessage {
    Ack { id: String },
    Nack { id: String, retry_in: Option<String> },
}

/// An event received from a subscription.
///
/// `id` and `topic` are broker-assigned and preserved exactly from the wire;
/// `data` is the opaque payload, never interpreted here; `timestamp_millis`
/// is the event's creation time in milliseconds since the Unix epoch (the
/// time of decode when the frame omitted it); `attempt` is the current
/// delivery attempt (>= 1) and `max_attempts` the broker's redelivery limit,
/// both advisory. `manual_ack` records whether the subscription asks the
/// consumer to acknowledge explicitly; when it is false, `ack` and `nack`
/// produce no decision.
#[derive(Debug, Clone)]
pub struct Event {
    pub id: String,
    pub topic: String,
    pub data: serde_json::Value,
    pub timestamp_millis: i64,
    pub attempt: u32,
    pub max_attempts: u32,
    pub manual_ack: bool,
}

/// What `Event::ack` returns: no decision under auto-ack, otherwise a
/// positive acknowledgment carrying the event's own id.
pub open spec fn ack_decision_matches(e: Event, r: Option<AckMessage>) -> bool {
    if e.manual_ack {
        r matches Some(AckMessage::Ack { id }) && id@ == e.id@
    } else {
        r is None
    }
}

/// What `Event::nack` returns for a given retry delay: no decision under
/// auto-ack, otherwise a negative acknowledgment carrying the event's own id
/// and exactly the given delay.
pub open spec fn nack_decision_matches(
    e: Event,
    retry_in: Option<Seq<char>>,
    r: Option<AckMessage>,
) -> bool {
    if e.manual_ack {
        &&& r matches Some(AckMessage::Nack { id, retry_in: d }) && id@ == e.id@
        &&& match retry_in {
            Some(t) => r->Some_0->Nack_retry_in matches Some(u) && u@ == t,
            None => r->Some_0->Nack_retry_in is None,
        }
    } else {
        r is None
    }
}

/// The view of an optional retry delay.
pub open spec fn opt_str_view(o: Option<&str>) -> Option<Seq<char>> {
    match o {
        Some(s) => Some(s@),
        None => None,
    }
}

impl Event {
    /// Acknowledge the event: the decision to enqueue, if any.
    ///
    /// Under auto-ack there is nothing to send and the result is `None`;
    /// otherwise the result is one `Ack` decision with this event's id.
    /// Calling it again simply produces another such decision.
    pub fn ack(&self) -> (r: Option<AckMessage>)
        ensures
            ack_decision_matches(*self, r),
    {
        if self.manual_ack {
            Some(AckMessage::Ack { id: self.id.clone() })
        } else {
            None
        }
    }

    /// Negatively acknowledge the event: the decision to enqueue, if any.
    ///
    /// Under auto-ack there is nothing to send and the result is `None`;
    /// otherwise the result is one `Nack` decision with this event's id and
    /// the given retry delay (absent meaning the broker's default delay).
    pub fn nack(&self, retry_in: Option<&str>) -> (r: Option<AckMessage>)
        ensures
            nack_decision_matches(*self, opt_str_view(retry_in), r),
    {
        if self.manual_ack {
            let delay = match retry_in {
                Some(d) => Some(d.to_owned()),
                None => None,
            };
            Some(AckMessage::Nack { id: self.id.clone(), retry_in: delay })
        } else {
            None
        }
    }
}

/// Response from emitting an event: the broker-assigned event id, the topic
/// it was published to, and its creation time in milliseconds since the Unix
/// epoch.
#[derive(Debug, Clone, PartialEq)]
pub struct EmitResponse {
    pub id: String,
    pub topic: String,
    pub created_at_millis: i64,
}

/// Response from creating a scheduled event: the schedule's id, the topic
/// the event will be published to, and when it is scheduled for and was
/// created, in milliseconds since the Unix epoch.
#[derive(Debug, Clone, PartialEq)]
pub struct CreateScheduleResponse {
    pub id: String,
    pub topic: String,
    pub scheduled_for_millis: i64,
    pub created_at_millis: i64,
}

/// A scheduled event: its id, topic and payload, when it is scheduled for
/// and was created (milliseconds since the Unix epoch), its status
/// (pending, completed, cancelled or failed), the error message if it
/// failed, and when it was executed if it completed.
#[derive(Debug, Clone, PartialEq)]
pub struct Schedule {
    pub id: String,
    pub topic: String,
    pub data: serde_json::Value,
    pub scheduled_for_millis: i64,
    pub status: String,
    pub error: Option<String>,
    pub created_at_millis: i64,
    pub executed_at_millis: Option<i64>,
}

/// Response from listing scheduled events: the schedules, and the total
/// count for pagination.
#[derive(Debug, Clone, PartialEq)]
pub struct ListSchedulesResponse {
    pub schedules: Vec<Schedule>,
    pub total: i64,
}

/// Response from running a scheduled event immediately: the schedule's id
/// and the id of the event that was emitted.
#[derive(Debug, Clone, PartialEq)]
pub struct RunScheduleResponse {
    pub schedule_id: String,
    pub event_id: String,
}

} // verus!
