use notifsh::client::{eval_emit_reply, eval_emit_status, Notif, NotifBuilder};
use notifsh::error::NotifError;
use notifsh::pump::ConnectionState;
use notifsh::supervisor::{status_of_state, StatusSignal, Supervisor};
use notifsh::types::{
    CreateScheduleResponse, ListSchedulesResponse, RunScheduleResponse, Schedule,
    SubscribeOptions,
};

#[test]
fn builder_defaults() {
    let b = NotifBuilder::new("nsh_key");
    assert_eq!(b.api_key, "nsh_key");
    assert_eq!(b.server, "https://api.notif.sh");
    assert_eq!(b.timeout_ms, 30_000);
}

#[test]
fn builder_setters() {
    let b = NotifBuilder::new("nsh_key").server("http://localhost:8080").timeout(60_000);
    assert_eq!(b.server, "http://localhost:8080");
    assert_eq!(b.timeout_ms, 60_000);
}

#[test]
fn build_accepts_a_prefixed_key() {
    let n = NotifBuilder::new("nsh_abc").build().unwrap();
    assert_eq!(n.api_key, "nsh_abc");
    assert_eq!(n.server_url(), "https://api.notif.sh");
}

#[test]
fn build_rejects_an_unprefixed_key() {
    match NotifBuilder::new("sk_abc").build() {
        Err(NotifError::Auth(msg)) => {
            assert_eq!(msg, "API key must start with 'nsh_'");
        },
        other => panic!("unexpected result: {:?}", other),
    }
}

#[test]
fn builder_via_client() {
    let n = Notif::builder("nsh_abc").server("https://broker.example").build().unwrap();
    assert_eq!(n.server_url(), "https://broker.example");
}

#[test]
fn emit_url_appends_the_endpoint_path() {
    let n = Notif::builder("nsh_abc").build().unwrap();
    assert_eq!(n.emit_url(), "https://api.notif.sh/api/v1/emit");
}

#[test]
fn ws_url_swaps_https_for_wss() {
    let n = Notif::builder("nsh_abc").build().unwrap();
    assert_eq!(n.ws_url(), "wss://api.notif.sh/ws?token=nsh_abc");
}

#[test]
fn ws_url_swaps_http_for_ws() {
    let n = Notif::builder("nsh_abc").server("http://localhost:8080").build().unwrap();
    assert_eq!(n.ws_url(), "ws://localhost:8080/ws?token=nsh_abc");
}

#[test]
fn ws_url_leaves_other_schemes_alone() {
    let n = Notif::builder("nsh_abc").server("wss://already").build().unwrap();
    assert_eq!(n.ws_url(), "wss://already/ws?token=nsh_abc");
}

#[test]
fn emit_status_success_carries_no_error() {
    assert!(eval_emit_status(200, "").is_none());
    assert!(eval_emit_status(201, "").is_none());
    assert!(eval_emit_status(299, "").is_none());
}

#[test]
fn emit_status_401_is_an_authentication_failure() {
    match eval_emit_status(401, "no such key") {
        Some(NotifError::Auth(msg)) => assert_eq!(msg, "no such key"),
        other => panic!("unexpected result: {:?}", other),
    }
}

#[test]
fn emit_status_other_failures_carry_status_and_body() {
    match eval_emit_status(503, "try later") {
        Some(NotifError::Api { status, message }) => {
            assert_eq!(status, 503);
            assert_eq!(message, "try later");
        },
        other => panic!("unexpected result: {:?}", other),
    }
}

#[test]
fn emit_reply_success_parses_the_response() {
    let body = "{\"id\":\"e1\",\"topic\":\"orders.created\",\"created_at\":\"2024-01-01T00:00:00Z\"}";
    let resp = eval_emit_reply(200, body).unwrap();
    assert_eq!(resp.id, "e1");
    assert_eq!(resp.topic, "orders.created");
    assert_eq!(resp.created_at_millis, 1_704_067_200_000);
}

#[test]
fn emit_reply_missing_field_is_a_serialization_error() {
    let body = "{\"id\":\"e1\",\"topic\":\"orders.created\"}";
    match eval_emit_reply(200, body) {
        Err(NotifError::Serialization(msg)) => {
            assert_eq!(msg, "malformed emit response: missing id, topic or created_at");
        },
        other => panic!("unexpected result: {:?}", other),
    }
}

#[test]
fn emit_reply_invalid_json_is_a_serialization_error() {
    match eval_emit_reply(204, "") {
        Err(NotifError::Serialization(_)) => {},
        other => panic!("unexpected result: {:?}", other),
    }
}

#[test]
fn subscribe_options_defaults() {
    let o = SubscribeOptions::new();
    assert!(o.auto_ack);
    assert!(o.from.is_none());
    assert!(o.group.is_none());
    let d = SubscribeOptions::default();
    assert!(d.auto_ack);
    assert!(d.from.is_none());
    assert!(d.group.is_none());
}

#[test]
fn subscribe_options_builders() {
    let o = SubscribeOptions::new().auto_ack(false).from("beginning").group("worker-pool");
    assert!(!o.auto_ack);
    assert_eq!(o.from.as_deref(), Some("beginning"));
    assert_eq!(o.group.as_deref(), Some("worker-pool"));
}

#[test]
fn schedule_responses_hold_their_fields() {
    let created = CreateScheduleResponse {
        id: "s1".to_string(),
        topic: "t".to_string(),
        scheduled_for_millis: 2_000,
        created_at_millis: 1_000,
    };
    assert_eq!(created.id, "s1");
    let schedule = Schedule {
        id: "s1".to_string(),
        topic: "t".to_string(),
        data: serde_json::Value::Null,
        scheduled_for_millis: 2_000,
        status: "pending".to_string(),
        error: None,
        created_at_millis: 1_000,
        executed_at_millis: None,
    };
    let listing = ListSchedulesResponse { schedules: vec![schedule.clone()], total: 1 };
    assert_eq!(listing.total, 1);
    assert_eq!(listing.schedules[0], schedule);
    let ran = RunScheduleResponse { schedule_id: "s1".to_string(), event_id: "e1".to_string() };
    assert_eq!(ran.event_id, "e1");
}

#[test]
fn error_constructors_carry_their_messages() {
    assert_eq!(NotifError::auth("a"), NotifError::Auth("a".to_string()));
    assert_eq!(
        NotifError::api(503, "b"),
        NotifError::Api { status: 503, message: "b".to_string() }
    );
    assert_eq!(NotifError::connection("c"), NotifError::Connection("c".to_string()));
    assert_eq!(NotifError::websocket("d"), NotifError::WebSocket("d".to_string()));
}

#[test]
fn supervisor_delay_is_fixed() {
    let s = Supervisor::new(5_000);
    assert_eq!(s.next_delay_ms(1), 5_000);
    assert_eq!(s.next_delay_ms(100), 5_000);
}

#[test]
fn status_signal_follows_the_connection_state() {
    assert_eq!(status_of_state(&ConnectionState::Active), StatusSignal::Connected);
    assert_eq!(status_of_state(&ConnectionState::Closed), StatusSignal::Disconnected);
    assert_eq!(status_of_state(&ConnectionState::Handshaking), StatusSignal::Disconnected);
    assert_eq!(
        status_of_state(&ConnectionState::Failed("boom".to_string())),
        StatusSignal::Errored("boom".to_string())
    );
}
