use notifsh::decode::decode_server_text;
use notifsh::error::NotifError;
use notifsh::pump::{
    eval_server_batch, handshake_reply, pump_step, ConnectionState, PumpInput, TransportItem,
};
use notifsh::types::{AckMessage, Event};

const NOW_MS: i64 = 99;

fn manual_event(id: &str) -> Event {
    Event {
        id: id.to_string(),
        topic: "orders.created".to_string(),
        data: serde_json::Value::Null,
        timestamp_millis: 0,
        attempt: 1,
        max_attempts: 3,
        manual_ack: true,
    }
}

#[test]
fn manual_ack_sends_exactly_one_ack_frame() {
    let e = manual_event("e1");
    let decision = e.ack().unwrap();
    assert_eq!(decision, AckMessage::Ack { id: "e1".to_string() });
    let r = pump_step(PumpInput::AckToSend(decision), true);
    assert_eq!(r.send_frame.as_deref(), Some("{\"action\":\"ack\",\"id\":\"e1\"}"));
    assert!(r.emit.is_none());
    assert_eq!(r.next, ConnectionState::Active);
}

#[test]
fn manual_nack_sends_exactly_one_nack_frame() {
    let e = manual_event("e1");
    let decision = e.nack(Some("5m")).unwrap();
    assert_eq!(
        decision,
        AckMessage::Nack { id: "e1".to_string(), retry_in: Some("5m".to_string()) }
    );
    let r = pump_step(PumpInput::AckToSend(decision), true);
    assert_eq!(
        r.send_frame.as_deref(),
        Some("{\"action\":\"nack\",\"id\":\"e1\",\"retry_in\":\"5m\"}")
    );
    assert!(r.emit.is_none());
    assert_eq!(r.next, ConnectionState::Active);
}

#[test]
fn repeated_ack_enqueues_another_decision() {
    let e = manual_event("e7");
    assert_eq!(e.ack(), e.ack());
    assert!(e.ack().is_some());
}

#[test]
fn auto_ack_produces_no_decision() {
    let mut e = manual_event("e1");
    e.manual_ack = false;
    assert!(e.ack().is_none());
    assert!(e.nack(Some("5m")).is_none());
    assert!(e.nack(None).is_none());
}

#[test]
fn handle_drop_terminates_the_loop() {
    let r = pump_step(PumpInput::AckClosed, false);
    assert_eq!(r.next, ConnectionState::Closed);
    assert!(r.emit.is_none());
    assert!(r.send_frame.is_none());
}

#[test]
fn close_frame_terminates_the_loop() {
    let r = pump_step(PumpInput::Inbound(TransportItem::Close), false);
    assert_eq!(r.next, ConnectionState::Closed);
    assert!(r.emit.is_none());
    assert!(r.send_frame.is_none());
}

#[test]
fn stream_end_terminates_the_loop() {
    let r = pump_step(PumpInput::Inbound(TransportItem::Ended), false);
    assert_eq!(r.next, ConnectionState::Closed);
    assert!(r.emit.is_none());
}

#[test]
fn transport_error_emits_and_fails_the_connection() {
    let r = pump_step(PumpInput::Inbound(TransportItem::Failed("boom".to_string())), false);
    assert_eq!(r.next, ConnectionState::Failed("boom".to_string()));
    match r.emit.unwrap() {
        Err(NotifError::WebSocket(msg)) => assert_eq!(msg, "boom"),
        other => panic!("unexpected item: {:?}", other),
    }
}

#[test]
fn non_text_messages_are_ignored() {
    let r = pump_step(PumpInput::Inbound(TransportItem::Other), false);
    assert_eq!(r.next, ConnectionState::Active);
    assert!(r.emit.is_none());
    assert!(r.send_frame.is_none());
}

#[test]
fn inbound_event_text_emits_the_event() {
    let text = "{\"type\":\"event\",\"id\":\"e1\",\"topic\":\"t\"}".to_string();
    let r = pump_step(PumpInput::Inbound(TransportItem::Text(text)), true);
    assert_eq!(r.next, ConnectionState::Active);
    let event = r.emit.unwrap().unwrap();
    assert_eq!(event.id, "e1");
    assert!(event.manual_ack);
}

#[test]
fn inbound_invalid_json_emits_one_error_and_continues() {
    let r = pump_step(PumpInput::Inbound(TransportItem::Text("not json".to_string())), false);
    assert_eq!(r.next, ConnectionState::Active);
    assert!(r.send_frame.is_none());
    match r.emit.unwrap() {
        Err(NotifError::Serialization(_)) => {},
        other => panic!("unexpected item: {:?}", other),
    }
}

#[test]
fn event_run_yields_all_events_in_order() {
    let frames: Vec<_> = ["a", "b", "c"]
        .iter()
        .map(|id| {
            decode_server_text(&format!("{{\"type\":\"event\",\"id\":\"{}\",\"topic\":\"t\"}}", id))
                .unwrap()
        })
        .collect();
    let items = eval_server_batch(frames, false, NOW_MS);
    let ids: Vec<String> = items.into_iter().map(|i| i.unwrap().id).collect();
    assert_eq!(ids, vec!["a", "b", "c"]);
}

#[test]
fn malformed_event_mid_stream_leaves_the_rest_intact() {
    let frames = vec![
        decode_server_text("{\"type\":\"event\",\"id\":\"a\",\"topic\":\"t\"}").unwrap(),
        decode_server_text("{\"type\":\"event\",\"topic\":\"t\"}").unwrap(),
        decode_server_text("{\"type\":\"event\",\"id\":\"c\",\"topic\":\"t\"}").unwrap(),
    ];
    let items = eval_server_batch(frames, false, NOW_MS);
    assert_eq!(items.len(), 3);
    assert_eq!(items[0].as_ref().unwrap().id, "a");
    match &items[1] {
        Err(NotifError::WebSocket(msg)) => {
            assert_eq!(msg, "malformed event: missing id or topic");
        },
        other => panic!("unexpected item: {:?}", other),
    }
    assert_eq!(items[2].as_ref().unwrap().id, "c");
}

#[test]
fn broker_error_mid_stream_is_non_fatal() {
    let frames = vec![
        decode_server_text("{\"type\":\"event\",\"id\":\"a\",\"topic\":\"t\"}").unwrap(),
        decode_server_text("{\"type\":\"error\",\"message\":\"topic not allowed\"}").unwrap(),
        decode_server_text("{\"type\":\"event\",\"id\":\"b\",\"topic\":\"t\"}").unwrap(),
    ];
    let items = eval_server_batch(frames, false, NOW_MS);
    assert_eq!(items.len(), 3);
    assert_eq!(items[0].as_ref().unwrap().id, "a");
    match &items[1] {
        Err(NotifError::Api { status, message }) => {
            assert_eq!(*status, 400);
            assert_eq!(message, "topic not allowed");
        },
        other => panic!("unexpected item: {:?}", other),
    }
    assert_eq!(items[2].as_ref().unwrap().id, "b");
}

#[test]
fn ignored_frames_do_not_shift_the_first_event() {
    let frames = vec![
        decode_server_text("{\"type\":\"heartbeat\"}").unwrap(),
        decode_server_text("{\"type\":\"subscribed\",\"topics\":[\"t\"]}").unwrap(),
        decode_server_text("{\"type\":\"event\",\"id\":\"first\",\"topic\":\"t\"}").unwrap(),
        decode_server_text("{\"type\":\"event\",\"id\":\"second\",\"topic\":\"t\"}").unwrap(),
    ];
    let items = eval_server_batch(frames, false, NOW_MS);
    assert_eq!(items.len(), 2);
    assert_eq!(items[0].as_ref().unwrap().id, "first");
    assert_eq!(items[1].as_ref().unwrap().id, "second");
}

#[test]
fn handshake_subscribed_succeeds() {
    let text = "{\"type\":\"subscribed\",\"topics\":[\"orders.*\"],\"consumer_id\":\"c-1\"}";
    let info = handshake_reply(TransportItem::Text(text.to_string())).unwrap();
    assert_eq!(info.topics, Some(vec!["orders.*".to_string()]));
    assert_eq!(info.consumer_id.as_deref(), Some("c-1"));
}

#[test]
fn handshake_error_frame_fails_with_the_broker_message() {
    let text = "{\"type\":\"error\",\"message\":\"bad topic\"}";
    match handshake_reply(TransportItem::Text(text.to_string())) {
        Err(NotifError::Api { status, message }) => {
            assert_eq!(status, 400);
            assert_eq!(message, "bad topic");
        },
        other => panic!("unexpected result: {:?}", other),
    }
}

#[test]
fn handshake_error_frame_without_message_gets_the_default() {
    match handshake_reply(TransportItem::Text("{\"type\":\"error\"}".to_string())) {
        Err(NotifError::Api { status, message }) => {
            assert_eq!(status, 400);
            assert_eq!(message, "subscription error");
        },
        other => panic!("unexpected result: {:?}", other),
    }
}

#[test]
fn handshake_unexpected_type_names_it() {
    let text = "{\"type\":\"event\",\"id\":\"e\",\"topic\":\"t\"}";
    match handshake_reply(TransportItem::Text(text.to_string())) {
        Err(NotifError::WebSocket(msg)) => {
            assert_eq!(msg, "unexpected message type: event");
        },
        other => panic!("unexpected result: {:?}", other),
    }
}

#[test]
fn handshake_non_text_reply_fails() {
    for item in [TransportItem::Close, TransportItem::Other] {
        match handshake_reply(item) {
            Err(NotifError::WebSocket(msg)) => assert_eq!(msg, "unexpected message format"),
            other => panic!("unexpected result: {:?}", other),
        }
    }
}

#[test]
fn handshake_transport_error_names_the_reason() {
    match handshake_reply(TransportItem::Failed("boom".to_string())) {
        Err(NotifError::WebSocket(msg)) => assert_eq!(msg, "WebSocket error: boom"),
        other => panic!("unexpected result: {:?}", other),
    }
}

#[test]
fn handshake_closed_stream_fails() {
    match handshake_reply(TransportItem::Ended) {
        Err(NotifError::WebSocket(msg)) => assert_eq!(msg, "connection closed unexpectedly"),
        other => panic!("unexpected result: {:?}", other),
    }
}

#[test]
fn handshake_invalid_json_is_a_serialization_error() {
    match handshake_reply(TransportItem::Text("not json".to_string())) {
        Err(NotifError::Serialization(_)) => {},
        other => panic!("unexpected result: {:?}", other),
    }
}
