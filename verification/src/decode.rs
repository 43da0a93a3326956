//! Decoding inbound server frames from JSON text into plain fields.
//!
//! The spec functions here say, over the named results of the trusted JSON
//! readers, exactly which fields a parsed frame yields; the executable
//! readers are proved to return them.

use vstd::prelude::*;
use crate::clock::rfc3339_millis;
use crate::json::{json_ok, parsed_value, value_array, value_member, value_str, value_u64};

verus! {

/// A decoded server frame, its fields as the wire carries them: every field
/// optional, the timestamp already parsed from the frame's RFC 3339 text
/// into milliseconds since the Unix epoch. Which fields matter is decided by
/// the frame's type: `subscribed` carries `topics` and `consumer_id`,
/// `event` carries `id`, `topic`, `data` and the attempt counters, `error`
/// carries `code` and `message`.
#[derive(Debug)]
pub struct ServerMessage {
    pub msg_type: Option<String>,
    pub id: Option<String>,
    pub topic: Option<String>,
    pub data: Option<serde_json::Value>,
    pub timestamp_millis: Option<i64>,
    pub attempt: Option<u32>,
    pub max_attempts: Option<u32>,
    pub topics: Option<Vec<String>>,
    pub consumer_id: Option<String>,
    pub code: Option<String>,
    pub message: Option<String>,
}

/// The string member of an object under the given key, if it is one.
pub open spec fn spec_string_field(v: serde_json::Value, key: Seq<char>) -> Option<Seq<char>> {
    match value_member(v, key) {
        Some(x) => value_str(x),
        None => None,
    }
}

/// The numeric member of an object under the given key, if it is a number
/// that fits in u32.
pub open spec fn spec_u32_field(v: serde_json::Value, key: Seq<char>) -> Option<u32> {
    match value_member(v, key) {
        Some(x) => match value_u64(x) {
            Some(n) => if n <= 0xffff_ffffu64 {
                Some(n as u32)
            } else {
                None
            },
            None => None,
        },
        None => None,
    }
}

/// The member under the given key read as an RFC 3339 timestamp, in
/// milliseconds since the Unix epoch, if it is one.
pub open spec fn spec_timestamp_field(v: serde_json::Value, key: Seq<char>) -> Option<i64> {
    match spec_string_field(v, key) {
        Some(s) => rfc3339_millis(s),
        None => None,
    }
}

/// Whether every element of a JSON array is a string.
pub open spec fn all_strings(elems: Seq<serde_json::Value>) -> bool {
    forall|i: int| 0 <= i < elems.len() ==> #[trigger] value_str(elems[i]) is Some
}

/// The characters of each element of an array of JSON strings.
pub open spec fn strings_of(elems: Seq<serde_json::Value>) -> Seq<Seq<char>> {
    elems.map_values(|x: serde_json::Value| value_str(x)->0)
}

/// The member under the given key read as an array of strings; None when
/// the member is absent, not an array, or holds a non-string element.
pub open spec fn spec_string_array_field(v: serde_json::Value, key: Seq<char>) -> Option<
    Seq<Seq<char>>,
> {
    match value_member(v, key) {
        Some(x) => match value_array(x) {
            Some(a) => if all_strings(a) {
                Some(strings_of(a))
            } else {
                None
            },
            None => None,
        },
        None => None,
    }
}

/// The string member of an object under the given key, if it is one.
pub(crate) fn get_string_field(v: &serde_json::Value, key: &str) -> (r: Option<String>)
    ensures
        r.deep_view() == spec_string_field(*v, key@),
{
    match crate::json::json_get(v, key) {
        Some(x) => crate::json::json_as_string(x),
        None => None,
    }
}

/// The numeric member of an object under the given key, if it is a number
/// that fits in u32.
fn get_u32_field(v: &serde_json::Value, key: &str) -> (r: Option<u32>)
    ensures
        r == spec_u32_field(*v, key@),
{
    match crate::json::json_get(v, key) {
        Some(x) => match crate::json::json_as_u64(x) {
            Some(n) => if n <= 0xffff_ffffu64 {
                Some(n as u32)
            } else {
                None
            },
            None => None,
        },
        None => None,
    }
}

/// The member under the given key read as an RFC 3339 timestamp, in
/// milliseconds since the Unix epoch, if it is one.
pub(crate) fn get_timestamp_field(v: &serde_json::Value, key: &str) -> (r: Option<i64>)
    ensures
        r == spec_timestamp_field(*v, key@),
{
    match get_string_field(v, key) {
        Some(s) => crate::clock::parse_rfc3339_millis(s.as_str()),
        None => None,
    }
}

/// The member under the given key read as an array of strings; None when the
/// member is absent, not an array, or holds a non-string element.
fn get_string_array_field(v: &serde_json::Value, key: &str) -> (r: Option<Vec<String>>)
    ensures
        r.deep_view() == spec_string_array_field(*v, key@),
{
    let ghost member = value_member(*v, key@);
    let arr = match crate::json::json_get(v, key) {
        Some(x) => match crate::json::json_as_array(x) {
            Some(a) => a,
            None => {
                return None;
            },
        },
        None => {
            return None;
        },
    };
    let ghost elems = arr@;
    proof {
        assert(member is Some);
        assert(value_array(member->0) is Some);
        assert(elems == value_array(member->0)->0);
    }
    let mut items: Vec<String> = Vec::new();
    let n = arr.len();
    let mut i: usize = 0;
    while i < n
        invariant
            n == arr.len(),
            arr@ == elems,
            member == value_member(*v, key@),
            member is Some,
            value_array(member->0) is Some,
            elems == value_array(member->0)->0,
            i <= n,
            items@.len() == i,
            forall|j: int| 0 <= j < i ==> #[trigger] value_str(elems[j]) is Some,
            forall|j: int| 0 <= j < i ==> #[trigger] items@[j]@ == value_str(elems[j])->0,
        decreases n - i,
    {
        match crate::json::json_as_string(&arr[i]) {
            Some(s) => items.push(s),
            None => {
                proof {
                    assert(value_str(elems[i as int]) is None);
                    assert(!all_strings(elems));
                    assert(spec_string_array_field(*v, key@) is None);
                }
                return None;
            },
        }
        i = i + 1;
    }
    proof {
        assert(all_strings(elems));
        assert forall|j: int| 0 <= j < n implies items.deep_view()[j] == strings_of(elems)[j] by {
            assert(items@[j]@ == value_str(elems[j])->0);
        }
        assert(items.deep_view() =~= strings_of(elems));
        assert(spec_string_array_field(*v, key@) == Some(strings_of(elems)));
    }
    Some(items)
}

/// The fields a parsed server frame yields: each field of the message is
/// exactly the corresponding member of the parsed value, read as
/// `ServerMessage` documents it.
pub open spec fn message_of_value(v: serde_json::Value, m: ServerMessage) -> bool {
    &&& m.msg_type.deep_view() == spec_string_field(v, "type"@)
    &&& m.id.deep_view() == spec_string_field(v, "id"@)
    &&& m.topic.deep_view() == spec_string_field(v, "topic"@)
    &&& m.data == value_member(v, "data"@)
    &&& m.timestamp_millis == spec_timestamp_field(v, "timestamp"@)
    &&& m.attempt == spec_u32_field(v, "attempt"@)
    &&& m.max_attempts == spec_u32_field(v, "max_attempts"@)
    &&& m.topics.deep_view() == spec_string_array_field(v, "topics"@)
    &&& m.consumer_id.deep_view() == spec_string_field(v, "consumer_id"@)
    &&& m.code.deep_view() == spec_string_field(v, "code"@)
    &&& m.message.deep_view() == spec_string_field(v, "message"@)
}

/// Read every field a server frame may carry out of a parsed JSON value.
fn extract_server_message(v: &serde_json::Value) -> (m: ServerMessage)
    ensures
        message_of_value(*v, m),
{
    let data = match crate::json::json_get(v, "data") {
        Some(x) => Some(x.clone()),
        None => None,
    };
    ServerMessage {
        msg_type: get_string_field(v, "type"),
        id: get_string_field(v, "id"),
        topic: get_string_field(v, "topic"),
        data,
        timestamp_millis: get_timestamp_field(v, "timestamp"),
        attempt: get_u32_field(v, "attempt"),
        max_attempts: get_u32_field(v, "max_attempts"),
        topics: get_string_array_field(v, "topics"),
        consumer_id: get_string_field(v, "consumer_id"),
        code: get_string_field(v, "code"),
        message: get_string_field(v, "message"),
    }
}

/// Decode one inbound frame text: exactly the texts that are well-formed
/// JSON decode, to the fields of the text's parsed value; any other text is
/// a serialization error.
pub fn decode_server_text(text: &str) -> (r: Result<ServerMessage, crate::error::NotifError>)
    ensures
        r is Ok <==> json_ok(text@),
        r matches Ok(m) ==> message_of_value(parsed_value(text@), m),
        r matches Err(e) ==> e is Serialization,
{
    match crate::json::json_parse(text) {
        Ok(v) => Ok(extract_server_message(&v)),
        Err(e) => {
            let msg = crate::json::json_error_string(&e);
            Err(crate::error::NotifError::Serialization(msg))
        },
    }
}

} // verus!
