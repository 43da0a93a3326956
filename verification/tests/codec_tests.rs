use notifsh::codec::{encode_ack, encode_emit_body, encode_nack, encode_subscribe, escape_json_string};
use notifsh::types::SubscribeOptions;

#[test]
fn ack_frame_exact_text() {
    assert_eq!(encode_ack("e1"), "{\"action\":\"ack\",\"id\":\"e1\"}");
}

#[test]
fn nack_frame_with_retry_exact_text() {
    assert_eq!(
        encode_nack("e1", Some("5m")),
        "{\"action\":\"nack\",\"id\":\"e1\",\"retry_in\":\"5m\"}"
    );
}

#[test]
fn nack_frame_without_retry_exact_text() {
    assert_eq!(encode_nack("e2", None), "{\"action\":\"nack\",\"id\":\"e2\"}");
}

#[test]
fn escape_plain_string() {
    assert_eq!(escape_json_string("orders.created"), "\"orders.created\"");
}

#[test]
fn escape_special_characters() {
    assert_eq!(escape_json_string("a\"b"), "\"a\\\"b\"");
    assert_eq!(escape_json_string("a\\b"), "\"a\\\\b\"");
    assert_eq!(escape_json_string("a\nb"), "\"a\\nb\"");
    assert_eq!(escape_json_string("a\rb"), "\"a\\rb\"");
    assert_eq!(escape_json_string("a\tb"), "\"a\\tb\"");
    assert_eq!(escape_json_string("a\u{1}b"), "\"a\\u0001b\"");
    assert_eq!(escape_json_string("a\u{1f}b"), "\"a\\u001fb\"");
}

#[test]
fn escaped_id_round_trips_through_a_json_parser() {
    let id = "we\"ird\\id\nwith\tcontrol\u{2}chars";
    let frame = encode_ack(id);
    let v: serde_json::Value = serde_json::from_str(&frame).unwrap();
    assert_eq!(v["action"].as_str().unwrap(), "ack");
    assert_eq!(v["id"].as_str().unwrap(), id);
}

#[test]
fn subscribe_frame_exact_text() {
    let topics = vec!["orders.*".to_string(), "agents.>".to_string()];
    let options = SubscribeOptions::new().auto_ack(false).from("beginning").group("workers");
    assert_eq!(
        encode_subscribe(&topics, &options),
        "{\"action\":\"subscribe\",\"topics\":[\"orders.*\",\"agents.>\"],\"options\":{\"auto_ack\":false,\"from\":\"beginning\",\"group\":\"workers\"}}"
    );
}

#[test]
fn subscribe_frame_default_options() {
    let topics = vec!["orders.*".to_string()];
    let options = SubscribeOptions::new();
    assert_eq!(
        encode_subscribe(&topics, &options),
        "{\"action\":\"subscribe\",\"topics\":[\"orders.*\"],\"options\":{\"auto_ack\":true}}"
    );
}

#[test]
fn subscribe_frame_empty_topics() {
    let topics: Vec<String> = vec![];
    let options = SubscribeOptions::new();
    assert_eq!(
        encode_subscribe(&topics, &options),
        "{\"action\":\"subscribe\",\"topics\":[],\"options\":{\"auto_ack\":true}}"
    );
}

#[test]
fn subscribe_frame_parses_back() {
    let topics = vec!["orders.*".to_string(), "a b\"c".to_string()];
    let options = SubscribeOptions::new().auto_ack(false).group("g1");
    let frame = encode_subscribe(&topics, &options);
    let v: serde_json::Value = serde_json::from_str(&frame).unwrap();
    assert_eq!(v["action"].as_str().unwrap(), "subscribe");
    let parsed: Vec<&str> =
        v["topics"].as_array().unwrap().iter().map(|t| t.as_str().unwrap()).collect();
    assert_eq!(parsed, vec!["orders.*", "a b\"c"]);
    assert_eq!(v["options"]["auto_ack"].as_bool().unwrap(), false);
    assert!(v["options"].get("from").is_none());
    assert_eq!(v["options"]["group"].as_str().unwrap(), "g1");
}

#[test]
fn emit_body_exact_text() {
    assert_eq!(
        encode_emit_body("orders.created", "{\"order_id\":\"123\"}"),
        "{\"topic\":\"orders.created\",\"data\":{\"order_id\":\"123\"}}"
    );
}

#[test]
fn emit_body_parses_back() {
    let data = serde_json::from_str::<serde_json::Value>("{\"n\":7,\"s\":\"x\"}").unwrap();
    let body = encode_emit_body("t.opic", &serde_json::to_string(&data).unwrap());
    let v: serde_json::Value = serde_json::from_str(&body).unwrap();
    assert_eq!(v["topic"].as_str().unwrap(), "t.opic");
    assert_eq!(v["data"], data);
}
