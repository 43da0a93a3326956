//! The connection pump's decisions: the handshake reply, and what each step
//! of the multiplexed loop emits, sends and does to the connection state.
//!
//! The pump alternates between two ready conditions — an inbound transport
//! item, and an acknowledgment decision queued by the consumer — and reacts
//! to exactly one of them per step. Everything it may do in a step is a
//! plain value (`StepResult`), so the loop that performs the I/O only
//! executes decisions taken here.

use vstd::prelude::*;
use crate::codec::{ack_frame_text, encode_ack, encode_nack, nack_frame_text};
use crate::decode::{decode_server_text, message_of_value, ServerMessage};
use crate::error::NotifError;
use crate::json::{json_ok, parsed_value, value_is_null};
use crate::types::{AckMessage, Event};

verus! {

/// The connection's lifecycle state, owned exclusively by the pump:
/// handshaking until the subscribe confirmation, active while the loop runs,
/// closed after a clean end (close frame, stream end, or the handle being
/// dropped), failed after a transport error, with its reason.
#[derive(Debug, Clone, PartialEq)]
pub enum ConnectionState {
    Handshaking,
    Active,
    Closed,
    Failed(String),
}

/// One item the transport's read half yielded: a text message, an explicit
/// close frame, a non-text message, a read error with its message, or the
/// end of the stream without a close frame.
#[derive(Debug, Clone, PartialEq)]
pub enum TransportItem {
    Text(String),
    Close,
    Other,
    Failed(String),
    Ended,
}

/// What one step of the multiplexed loop reacted to: an inbound transport
/// item, an acknowledgment decision queued by the consumer, or the
/// acknowledgment channel having closed because the subscription handle was
/// dropped.
#[derive(Debug, Clone, PartialEq)]
pub enum PumpInput {
    Inbound(TransportItem),
    AckToSend(AckMessage),
    AckClosed,
}

/// The pump's decisions for one step: at most one item to push onto the
/// event channel, at most one frame text to send on the wire, the
/// connection state after the step, and whether the loop must also stop if
/// pushing the item fails because the consumer is gone.
#[derive(Debug)]
pub struct StepResult {
    pub emit: Option<Result<Event, NotifError>>,
    pub send_frame: Option<String>,
    pub next: ConnectionState,
    pub halt_if_emit_fails: bool,
}

/// Whether a decoded frame names the given type.
pub open spec fn is_frame_type(m: ServerMessage, t: Seq<char>) -> bool {
    m.msg_type matches Some(s) && s@ == t
}

/// Whether an event frame carries the two required fields.
pub open spec fn event_fields_present(m: ServerMessage) -> bool {
    m.id is Some && m.topic is Some
}

/// A well-formed event frame: typed `event`, with id and topic present.
pub open spec fn well_formed_event(m: ServerMessage) -> bool {
    is_frame_type(m, "event"@) && event_fields_present(m)
}

/// The event a well-formed event frame decodes to: id, topic and payload
/// preserved exactly, and the defined defaults where the frame omitted a
/// field — null for the payload, the time of decode for the timestamp, 1
/// for the attempt, 3 for the attempt limit.
pub open spec fn event_item_matches(m: ServerMessage, manual_ack: bool, now_ms: i64, e: Event) -> bool {
    &&& e.id == m.id->0
    &&& e.topic == m.topic->0
    &&& (m.data is Some ==> e.data == m.data->0)
    &&& (m.data is None ==> value_is_null(e.data))
    &&& e.timestamp_millis == (if m.timestamp_millis is Some {
        m.timestamp_millis->0
    } else {
        now_ms
    })
    &&& e.attempt == (if m.attempt is Some {
        m.attempt->0
    } else {
        1u32
    })
    &&& e.max_attempts == (if m.max_attempts is Some {
        m.max_attempts->0
    } else {
        3u32
    })
    &&& e.manual_ack == manual_ack
}

/// Whether a decoded frame makes the pump push an item onto the event
/// channel: event frames and error frames do, a frame without a type is a
/// protocol violation that does too, and every other type is ignored.
pub open spec fn emits_item(m: ServerMessage) -> bool {
    ||| m.msg_type is None
    ||| is_frame_type(m, "event"@)
    ||| is_frame_type(m, "error"@)
}

/// The one item a decoded frame makes the pump push: the decoded event for
/// a well-formed event frame; a protocol-violation error for an event frame
/// missing id or topic, or a frame without a type; the broker's reported
/// error for an error frame.
pub open spec fn item_matches(
    m: ServerMessage,
    manual_ack: bool,
    now_ms: i64,
    item: Result<Event, NotifError>,
) -> bool {
    if m.msg_type is None {
        item matches Err(NotifError::Serialization(msg)) && msg@
            == "malformed frame: missing type"@
    } else if is_frame_type(m, "event"@) {
        if event_fields_present(m) {
            item matches Ok(e) && event_item_matches(m, manual_ack, now_ms, e)
        } else {
            item matches Err(NotifError::WebSocket(msg)) && msg@
                == "malformed event: missing id or topic"@
        }
    } else if is_frame_type(m, "error"@) {
        item matches Err(NotifError::Api { status, message }) && status == 400u16 && message@
            == (if m.message is Some {
            m.message->0@
        } else {
            "unknown error"@
        })
    } else {
        false
    }
}

/// A well-formed event frame's item: `Ok`, with the frame's fields and the
/// defined defaults.
pub open spec fn ok_event_matches(
    m: ServerMessage,
    manual_ack: bool,
    now_ms: i64,
    item: Result<Event, NotifError>,
) -> bool {
    item matches Ok(e) && event_item_matches(m, manual_ack, now_ms, e)
}

/// Whether `s` holds exactly the characters of `lit`.
fn is_literal(s: &String, lit: &str) -> (r: bool)
    ensures
        r == (s@ == lit@),
{
    let other = String::from_str(lit);
    s.eq(&other)
}

/// Decide what one decoded frame makes the pump do. The connection stays
/// active — no inbound frame terminates the loop — and nothing is sent;
/// whether an item is pushed, and which, is pinned down per frame type; only
/// a delivered event makes the loop halt when the consumer is gone.
pub fn eval_server_message(m: ServerMessage, manual_ack: bool, now_ms: i64) -> (r: StepResult)
    ensures
        r.next is Active,
        r.send_frame is None,
        r.emit is Some <==> emits_item(m),
        r.emit matches Some(item) ==> item_matches(m, manual_ack, now_ms, item),
        r.halt_if_emit_fails <==> well_formed_event(m),
{
    match m.msg_type {
        None => StepResult {
            emit: Some(
                Err(NotifError::Serialization(String::from_str("malformed frame: missing type"))),
            ),
            send_frame: None,
            next: ConnectionState::Active,
            halt_if_emit_fails: false,
        },
        Some(t) => {
            if is_literal(&t, "event") {
                match (m.id, m.topic) {
                    (Some(id), Some(topic)) => {
                        let data = match m.data {
                            Some(v) => v,
                            None => crate::json::json_null(),
                        };
                        let timestamp_millis = match m.timestamp_millis {
                            Some(ts) => ts,
                            None => now_ms,
                        };
                        let attempt = match m.attempt {
                            Some(a) => a,
                            None => 1u32,
                        };
                        let max_attempts = match m.max_attempts {
                            Some(a) => a,
                            None => 3u32,
                        };
                        let e = Event {
                            id,
                            topic,
                            data,
                            timestamp_millis,
                            attempt,
                            max_attempts,
                            manual_ack,
                        };
                        StepResult {
                            emit: Some(Ok(e)),
                            send_frame: None,
                            next: ConnectionState::Active,
                            halt_if_emit_fails: true,
                        }
                    },
                    _ => StepResult {
                        emit: Some(
                            Err(
                                NotifError::WebSocket(
                                    String::from_str("malformed event: missing id or topic"),
                                ),
                            ),
                        ),
                        send_frame: None,
                        next: ConnectionState::Active,
                        halt_if_emit_fails: false,
                    },
                }
            } else if is_literal(&t, "error") {
                let message = match m.message {
                    Some(msg) => msg,
                    None => String::from_str("unknown error"),
                };
                StepResult {
                    emit: Some(Err(NotifError::Api { status: 400, message })),
                    send_frame: None,
                    next: ConnectionState::Active,
                    halt_if_emit_fails: false,
                }
            } else {
                StepResult {
                    emit: None,
                    send_frame: None,
                    next: ConnectionState::Active,
                    halt_if_emit_fails: false,
                }
            }
        },
    }
}

/// What a subscribe confirmation carries: the confirmed topics and the
/// broker-assigned consumer id, as far as the frame named them.
#[derive(Debug)]
pub struct SubscribedInfo {
    pub topics: Option<Vec<String>>,
    pub consumer_id: Option<String>,
}

/// What the one handshake reply frame decides: a subscribed frame completes
/// the handshake; an error frame fails it with the broker's message as an
/// API error; any other typed frame is an unexpected-type failure naming the
/// type; a frame without a type is a protocol violation.
pub open spec fn handshake_reply_matches(m: ServerMessage, r: Result<
    SubscribedInfo,
    NotifError,
>) -> bool {
    if is_frame_type(m, "subscribed"@) {
        r matches Ok(info) && info.topics == m.topics && info.consumer_id == m.consumer_id
    } else if is_frame_type(m, "error"@) {
        r matches Err(NotifError::Api { status, message }) && status == 400u16 && message@
            == (if m.message is Some {
            m.message->0@
        } else {
            "subscription error"@
        })
    } else if m.msg_type is Some {
        r matches Err(NotifError::WebSocket(msg)) && msg@ == "unexpected message type: "@
            + m.msg_type->0@
    } else {
        r matches Err(NotifError::Serialization(msg)) && msg@ == "malformed frame: missing type"@
    }
}

/// Decide the handshake from the one decoded reply frame.
pub fn eval_handshake_message(m: ServerMessage) -> (r: Result<SubscribedInfo, NotifError>)
    ensures
        handshake_reply_matches(m, r),
{
    match m.msg_type {
        None => Err(NotifError::Serialization(String::from_str("malformed frame: missing type"))),
        Some(t) => {
            if is_literal(&t, "subscribed") {
                Ok(SubscribedInfo { topics: m.topics, consumer_id: m.consumer_id })
            } else if is_literal(&t, "error") {
                let message = match m.message {
                    Some(msg) => msg,
                    None => String::from_str("subscription error"),
                };
                Err(NotifError::Api { status: 400, message })
            } else {
                let mut msg = String::from_str("unexpected message type: ");
                msg.append(t.as_str());
                Err(NotifError::WebSocket(msg))
            }
        },
    }
}

/// Decide the handshake from the one transport item read after the
/// subscribe frame was sent. Only a text frame can complete it; a close
/// frame or other message, a transport error, or the stream ending are each
/// a handshake failure with its own message; text that is not well-formed
/// JSON is a serialization failure; well-formed JSON decides by the parsed
/// value's fields, as `handshake_reply_matches` says.
pub fn handshake_reply(item: TransportItem) -> (r: Result<SubscribedInfo, NotifError>)
    ensures
        item matches TransportItem::Close ==> r matches Err(NotifError::WebSocket(msg)) && msg@
            == "unexpected message format"@,
        item matches TransportItem::Other ==> r matches Err(NotifError::WebSocket(msg)) && msg@
            == "unexpected message format"@,
        item matches TransportItem::Failed(e) ==> r matches Err(NotifError::WebSocket(msg)) && msg@
            == "WebSocket error: "@ + e@,
        item matches TransportItem::Ended ==> r matches Err(NotifError::WebSocket(msg)) && msg@
            == "connection closed unexpectedly"@,
        item matches TransportItem::Text(text) ==> (if json_ok(text@) {
            exists|m: ServerMessage|
                #[trigger] message_of_value(parsed_value(text@), m) && handshake_reply_matches(
                    m,
                    r,
                )
        } else {
            r matches Err(e) && e is Serialization
        }),
{
    match item {
        TransportItem::Text(text) => match decode_server_text(text.as_str()) {
            Ok(m) => {
                let reply = eval_handshake_message(m);
                proof {
                    assert(message_of_value(parsed_value(text@), m));
                    assert(handshake_reply_matches(m, reply));
                }
                reply
            },
            Err(e) => Err(e),
        },
        TransportItem::Close => Err(
            NotifError::WebSocket(String::from_str("unexpected message format")),
        ),
        TransportItem::Other => Err(
            NotifError::WebSocket(String::from_str("unexpected message format")),
        ),
        TransportItem::Failed(e) => {
            let mut msg = String::from_str("WebSocket error: ");
            msg.append(e.as_str());
            Err(NotifError::WebSocket(msg))
        },
        TransportItem::Ended => Err(
            NotifError::WebSocket(String::from_str("connection closed unexpectedly")),
        ),
    }
}

/// A step that terminates the loop cleanly: nothing pushed, nothing sent,
/// the connection closed.
pub open spec fn silent_close(r: StepResult) -> bool {
    &&& r.emit is None
    &&& r.send_frame is None
    &&& r.next is Closed
    &&& !r.halt_if_emit_fails
}

/// What sending one acknowledgment decision does: exactly one frame goes
/// out — the ack frame with the decision's id, or the nack frame with its
/// id and retry delay — nothing is pushed, and the loop continues.
pub open spec fn ack_send_matches(msg: AckMessage, r: StepResult) -> bool {
    &&& r.emit is None
    &&& r.next is Active
    &&& !r.halt_if_emit_fails
    &&& match msg {
        AckMessage::Ack { id } => r.send_frame matches Some(f) && f@ == ack_frame_text(id@),
        AckMessage::Nack { id, retry_in } => r.send_frame matches Some(f) && f@ == nack_frame_text(
            id@,
            retry_in.deep_view(),
        ),
    }
}

/// What one inbound text frame makes the pump do: nothing is sent and the
/// connection stays active, whatever the text; text that is not well-formed
/// JSON pushes exactly one serialization-error item and the loop continues;
/// well-formed JSON is decided by the parsed value's fields — whether an
/// item is pushed, and which, is what `item_matches` says of those fields,
/// for some reading of the decode time.
pub open spec fn inbound_text_step(text: Seq<char>, manual_ack: bool, r: StepResult) -> bool {
    &&& r.send_frame is None
    &&& r.next is Active
    &&& if json_ok(text) {
        exists|m: ServerMessage|
            {
                &&& #[trigger] message_of_value(parsed_value(text), m)
                &&& (r.emit is Some <==> emits_item(m))
                &&& (r.halt_if_emit_fails <==> well_formed_event(m))
                &&& (r.emit matches Some(item) ==> exists|now_ms: i64|
                    #[trigger] item_matches(m, manual_ack, now_ms, item))
            }
    } else {
        &&& (r.emit matches Some(Err(e)) && e is Serialization)
        &&& !r.halt_if_emit_fails
    }
}

/// One step of the multiplexed loop: decide what the reacted-to input makes
/// the pump do. Inbound text never sends and never terminates, and pushes
/// exactly what `inbound_text_step` says; a close frame, the stream's end,
/// and the acknowledgment channel closing (the handle was dropped) each
/// terminate cleanly; a transport error pushes a connection error and
/// terminates with the failure's reason; other messages do nothing; a
/// queued acknowledgment decision sends exactly its frame.
pub fn pump_step(input: PumpInput, manual_ack: bool) -> (r: StepResult)
    ensures
        input matches PumpInput::Inbound(TransportItem::Text(text)) ==> inbound_text_step(
            text@,
            manual_ack,
            r,
        ) && (r.emit matches Some(Ok(e)) ==> e.manual_ack == manual_ack),
        input matches PumpInput::Inbound(TransportItem::Close) ==> silent_close(r),
        input matches PumpInput::Inbound(TransportItem::Ended) ==> silent_close(r),
        input matches PumpInput::Inbound(TransportItem::Other) ==> r.emit is None
            && r.send_frame is None && r.next is Active && !r.halt_if_emit_fails,
        input matches PumpInput::Inbound(TransportItem::Failed(reason)) ==> r.send_frame is None
            && !r.halt_if_emit_fails && (r.next matches ConnectionState::Failed(why) && why@
            == reason@) && (r.emit matches Some(Err(NotifError::WebSocket(msg))) && msg@
            == reason@),
        input matches PumpInput::AckToSend(msg) ==> ack_send_matches(msg, r),
        input matches PumpInput::AckClosed ==> silent_close(r),
{
    match input {
        PumpInput::Inbound(item) => match item {
            TransportItem::Text(text) => match decode_server_text(text.as_str()) {
                Ok(m) => {
                    let now_ms = crate::clock::now_millis();
                    let step = eval_server_message(m, manual_ack, now_ms);
                    proof {
                        assert(message_of_value(parsed_value(text@), m));
                        assert(step.emit matches Some(item) ==> item_matches(
                            m,
                            manual_ack,
                            now_ms,
                            item,
                        ));
                    }
                    step
                },
                Err(e) => StepResult {
                    emit: Some(Err(e)),
                    send_frame: None,
                    next: ConnectionState::Active,
                    halt_if_emit_fails: false,
                },
            },
            TransportItem::Close => StepResult {
                emit: None,
                send_frame: None,
                next: ConnectionState::Closed,
                halt_if_emit_fails: false,
            },
            TransportItem::Other => StepResult {
                emit: None,
                send_frame: None,
                next: ConnectionState::Active,
                halt_if_emit_fails: false,
            },
            TransportItem::Failed(reason) => {
                let err = NotifError::websocket(reason.as_str());
                StepResult {
                    emit: Some(Err(err)),
                    send_frame: None,
                    next: ConnectionState::Failed(reason),
                    halt_if_emit_fails: false,
                }
            },
            TransportItem::Ended => StepResult {
                emit: None,
                send_frame: None,
                next: ConnectionState::Closed,
                halt_if_emit_fails: false,
            },
        },
        PumpInput::AckToSend(msg) => match msg {
            AckMessage::Ack { id } => StepResult {
                emit: None,
                send_frame: Some(encode_ack(id.as_str())),
                next: ConnectionState::Active,
                halt_if_emit_fails: false,
            },
            AckMessage::Nack { id, retry_in } => {
                let frame = match &retry_in {
                    Some(d) => encode_nack(id.as_str(), Some(d.as_str())),
                    None => encode_nack(id.as_str(), None),
                };
                StepResult {
                    emit: None,
                    send_frame: Some(frame),
                    next: ConnectionState::Active,
                    halt_if_emit_fails: false,
                }
            },
        },
        PumpInput::AckClosed => StepResult {
            emit: None,
            send_frame: None,
            next: ConnectionState::Closed,
            halt_if_emit_fails: false,
        },
    }
}

/// The items a sequence of decoded frames makes the pump push onto the
/// event channel, in order: each frame that pushes one contributes exactly
/// its item, every other frame contributes nothing.
pub open spec fn batch_items_match(
    ms: Seq<ServerMessage>,
    manual_ack: bool,
    now_ms: i64,
    items: Seq<Result<Event, NotifError>>,
) -> bool
    decreases ms.len(),
{
    if ms.len() == 0 {
        items.len() == 0
    } else if emits_item(ms[0]) {
        &&& items.len() > 0
        &&& item_matches(ms[0], manual_ack, now_ms, items[0])
        &&& batch_items_match(ms.skip(1), manual_ack, now_ms, items.skip(1))
    } else {
        batch_items_match(ms.skip(1), manual_ack, now_ms, items)
    }
}

/// Run the inbound branch over a batch of decoded frames with the
/// acknowledgment channel quiet: the items the pump pushes, in order.
pub fn eval_server_batch(ms: Vec<ServerMessage>, manual_ack: bool, now_ms: i64) -> (items: Vec<
    Result<Event, NotifError>,
>)
    ensures
        batch_items_match(ms@, manual_ack, now_ms, items@),
    decreases ms@.len(),
{
    let mut rest_frames = ms;
    if rest_frames.len() == 0 {
        let items: Vec<Result<Event, NotifError>> = Vec::new();
        items
    } else {
        let ghost orig = rest_frames@;
        let m = rest_frames.remove(0);
        proof {
            assert(rest_frames@ =~= orig.skip(1));
        }
        let step = eval_server_message(m, manual_ack, now_ms);
        let mut rest = eval_server_batch(rest_frames, manual_ack, now_ms);
        match step.emit {
            Some(item) => {
                let mut items: Vec<Result<Event, NotifError>> = Vec::new();
                let ghost rest_view = rest@;
                items.push(item);
                items.append(&mut rest);
                proof {
                    assert(items@.skip(1) =~= rest_view);
                    assert(batch_items_match(orig, manual_ack, now_ms, items@));
                }
                items
            },
            None => rest,
        }
    }
}

/// Frames that each push an item yield exactly one item apiece, aligned
/// with the frames in order.
pub proof fn lemma_batch_pointwise(
    ms: Seq<ServerMessage>,
    manual_ack: bool,
    now_ms: i64,
    items: Seq<Result<Event, NotifError>>,
)
    requires
        batch_items_match(ms, manual_ack, now_ms, items),
        forall|i: int| 0 <= i < ms.len() ==> #[trigger] emits_item(ms[i]),
    ensures
        items.len() == ms.len(),
        forall|i: int|
            0 <= i < ms.len() ==> #[trigger] item_matches(ms[i], manual_ack, now_ms, items[i]),
    decreases ms.len(),
{
    if ms.len() == 0 {
    } else {
        assert(emits_item(ms[0]));
        assert forall|j: int| 0 <= j < ms.skip(1).len() implies #[trigger] emits_item(
            ms.skip(1)[j],
        ) by {
            assert(ms.skip(1)[j] == ms[j + 1]);
            assert(emits_item(ms[j + 1]));
        }
        lemma_batch_pointwise(ms.skip(1), manual_ack, now_ms, items.skip(1));
        assert forall|i: int| 0 <= i < ms.len() implies #[trigger] item_matches(
            ms[i],
            manual_ack,
            now_ms,
            items[i],
        ) by {
            if i > 0 {
                assert(ms.skip(1)[i - 1] == ms[i]);
                assert(items.skip(1)[i - 1] == items[i]);
                assert(item_matches(ms.skip(1)[i - 1], manual_ack, now_ms, items.skip(1)[i - 1]));
            }
        }
    }
}

/// A run of well-formed event frames, with no error or malformed frames
/// interleaved, yields exactly as many items, each `Ok`, in the same order,
/// with each frame's id and topic preserved exactly and the defined
/// defaults applied where the frame omitted a field.
pub proof fn lemma_event_run_in_order(
    ms: Seq<ServerMessage>,
    manual_ack: bool,
    now_ms: i64,
    items: Seq<Result<Event, NotifError>>,
)
    requires
        batch_items_match(ms, manual_ack, now_ms, items),
        forall|i: int| 0 <= i < ms.len() ==> #[trigger] well_formed_event(ms[i]),
    ensures
        items.len() == ms.len(),
        forall|i: int|
            0 <= i < ms.len() ==> #[trigger] ok_event_matches(ms[i], manual_ack, now_ms, items[i]),
{
    assert forall|i: int| 0 <= i < ms.len() implies #[trigger] emits_item(ms[i]) by {
        assert(well_formed_event(ms[i]));
    }
    lemma_batch_pointwise(ms, manual_ack, now_ms, items);
    assert forall|i: int| 0 <= i < ms.len() implies #[trigger] ok_event_matches(
        ms[i],
        manual_ack,
        now_ms,
        items[i],
    ) by {
        assert(item_matches(ms[i], manual_ack, now_ms, items[i]));
        assert(well_formed_event(ms[i]));
    }
}

/// The first item the pump pushes corresponds to the first frame that
/// pushes one: when the first such frame is a well-formed event frame, the
/// first item is its event — nothing is delivered before it, out of order
/// or duplicated.
pub proof fn lemma_first_item_matches_first_event(
    ms: Seq<ServerMessage>,
    manual_ack: bool,
    now_ms: i64,
    items: Seq<Result<Event, NotifError>>,
    k: int,
)
    requires
        batch_items_match(ms, manual_ack, now_ms, items),
        0 <= k < ms.len(),
        forall|i: int| 0 <= i < k ==> !(#[trigger] emits_item(ms[i])),
        well_formed_event(ms[k]),
    ensures
        items.len() > 0,
        ok_event_matches(ms[k], manual_ack, now_ms, items[0]),
    decreases k,
{
    if k == 0 {
        assert(emits_item(ms[0]));
        assert(item_matches(ms[0], manual_ack, now_ms, items[0]));
    } else {
        assert(!emits_item(ms[0]));
        assert forall|i: int| 0 <= i < k - 1 implies !(#[trigger] emits_item(ms.skip(1)[i])) by {
            assert(ms.skip(1)[i] == ms[i + 1]);
            assert(!emits_item(ms[i + 1]));
        }
        assert(ms.skip(1)[k - 1] == ms[k]);
        lemma_first_item_matches_first_event(ms.skip(1), manual_ack, now_ms, items, k - 1);
    }
}

/// An event frame missing its id or topic yields exactly one error item in
/// its place, and every other frame's item is unchanged by it: the
/// malformed frame advances no other event's fields, order or defaults.
pub proof fn lemma_malformed_event_isolated(
    ms: Seq<ServerMessage>,
    manual_ack: bool,
    now_ms: i64,
    items: Seq<Result<Event, NotifError>>,
    j: int,
)
    requires
        batch_items_match(ms, manual_ack, now_ms, items),
        0 <= j < ms.len(),
        is_frame_type(ms[j], "event"@),
        !event_fields_present(ms[j]),
        forall|i: int| 0 <= i < ms.len() && i != j ==> #[trigger] well_formed_event(ms[i]),
    ensures
        items.len() == ms.len(),
        items[j] matches Err(NotifError::WebSocket(msg)) && msg@
            == "malformed event: missing id or topic"@,
        forall|i: int|
            0 <= i < ms.len() && i != j ==> #[trigger] ok_event_matches(
                ms[i],
                manual_ack,
                now_ms,
                items[i],
            ),
    decreases ms.len(),
{
    assert forall|i: int| 0 <= i < ms.len() implies #[trigger] emits_item(ms[i]) by {
        if i != j {
            assert(well_formed_event(ms[i]));
        }
    }
    lemma_batch_pointwise(ms, manual_ack, now_ms, items);
    assert(item_matches(ms[j], manual_ack, now_ms, items[j]));
    assert forall|i: int| 0 <= i < ms.len() && i != j implies #[trigger] ok_event_matches(
        ms[i],
        manual_ack,
        now_ms,
        items[i],
    ) by {
        assert(item_matches(ms[i], manual_ack, now_ms, items[i]));
        assert(well_formed_event(ms[i]));
    }
}

/// With auto-ack disabled, the decision `ack` produces makes the pump send
/// exactly one ack frame carrying the event's own id — and push nothing,
/// and keep the connection active.
pub proof fn lemma_manual_ack_sends_one_frame(e: Event, d: Option<AckMessage>, r: StepResult)
    requires
        e.manual_ack,
        crate::types::ack_decision_matches(e, d),
        ack_send_matches(d->0, r),
    ensures
        r.send_frame matches Some(f) && f@ == ack_frame_text(e.id@),
        r.emit is None,
        r.next is Active,
{
}

/// With auto-ack disabled, the decision `nack` produces makes the pump send
/// exactly one nack frame carrying the event's own id and the given retry
/// delay — and push nothing, and keep the connection active.
pub proof fn lemma_manual_nack_sends_one_frame(
    e: Event,
    retry_in: Option<Seq<char>>,
    d: Option<AckMessage>,
    r: StepResult,
)
    requires
        e.manual_ack,
        crate::types::nack_decision_matches(e, retry_in, d),
        ack_send_matches(d->0, r),
    ensures
        r.send_frame matches Some(f) && f@ == nack_frame_text(e.id@, retry_in),
        r.emit is None,
        r.next is Active,
{
    let msg = d->0;
    match msg {
        AckMessage::Ack { .. } => {
            assert(false);
        },
        AckMessage::Nack { id, retry_in: ri } => {
            assert(ri.deep_view() == retry_in);
        },
    }
}

/// With auto-ack enabled, neither `ack` nor `nack` produces a decision, so
/// the pump is never asked to send a frame for the event.
pub proof fn lemma_auto_ack_sends_nothing(
    e: Event,
    retry_in: Option<Seq<char>>,
    d_ack: Option<AckMessage>,
    d_nack: Option<AckMessage>,
)
    requires
        !e.manual_ack,
        crate::types::ack_decision_matches(e, d_ack),
        crate::types::nack_decision_matches(e, retry_in, d_nack),
    ensures
        d_ack is None,
        d_nack is None,
{
}

} // verus!
