//! Trusted boundary to serde_json.
//!
//! The broker's frames are JSON text. Inbound text is parsed here into a
//! `serde_json::Value`, which this library carries as an opaque value; the
//! small readers below hand its contents out as plain values, and every
//! decision taken on those values is made by verified code.
//!
//! What parsing and reading return depends on the argument alone — serde_json
//! parses deterministically and its default `Map` keeps keys in a fixed
//! order — so each result is given a name (`json_ok`, `parsed_value`, and
//! the `value_*` functions below), and the reader's contract says the result
//! is that name's value. The names are defined by nothing else; contracts
//! over them are exact without restating serde_json's behaviour.

use vstd::prelude::*;

verus! {

#[verifier::external_type_specification]
#[verifier::external_body]
pub struct ExValue(serde_json::Value);

#[verifier::external_type_specification]
#[verifier::external_body]
pub struct ExJsonError(serde_json::Error);

/// Whether the text is one well-formed JSON document.
pub uninterp spec fn json_ok(text: Seq<char>) -> bool;

/// The value a well-formed JSON document denotes.
pub uninterp spec fn parsed_value(text: Seq<char>) -> serde_json::Value;

/// The member of an object under the given key; None when the value is not
/// an object or has no such member.
pub uninterp spec fn value_member(v: serde_json::Value, key: Seq<char>) -> Option<
    serde_json::Value,
>;

/// The characters of a JSON string; None when the value is not a string.
pub uninterp spec fn value_str(v: serde_json::Value) -> Option<Seq<char>>;

/// The value of a JSON number representable as u64; None otherwise.
pub uninterp spec fn value_u64(v: serde_json::Value) -> Option<u64>;

/// The elements of a JSON array; None when the value is not an array.
pub uninterp spec fn value_array(v: serde_json::Value) -> Option<Seq<serde_json::Value>>;

/// Whether the value is JSON null.
pub uninterp spec fn value_is_null(v: serde_json::Value) -> bool;

/// Relies on serde_json::Value's derived Clone: a field-by-field copy, equal
/// to the value cloned.
pub assume_specification[ <serde_json::Value as Clone>::clone ](v: &serde_json::Value) -> (r:
    serde_json::Value)
    ensures
        r == *v,
;

/// Relies on serde_json::from_str::<Value>: parses one JSON document, or
/// reports why the text is not valid JSON. Parsing is a function of the text
/// alone: it succeeds exactly on the texts `json_ok` holds of, and yields
/// `parsed_value` of the text.
#[verifier::external_body]
pub(crate) fn json_parse(text: &str) -> (r: Result<serde_json::Value, serde_json::Error>)
    ensures
        r is Ok <==> json_ok(text@),
        r matches Ok(v) ==> v == parsed_value(text@),
{
    serde_json::from_str::<serde_json::Value>(text)
}

/// Relies on serde_json::Error's Display rendering for the error message.
#[verifier::external_body]
pub(crate) fn json_error_string(e: &serde_json::Error) -> (r: String) {
    e.to_string()
}

/// Relies on serde_json::Value::get: the member of an object under the given
/// key, or None when the value is not an object or has no such member — that
/// is, `value_member` of the value and key.
#[verifier::external_body]
pub(crate) fn json_get<'a>(v: &'a serde_json::Value, key: &str) -> (r: Option<
    &'a serde_json::Value,
>)
    ensures
        r is Some <==> value_member(*v, key@) is Some,
        r matches Some(x) ==> Some(*x) == value_member(*v, key@),
{
    v.get(key)
}

/// Relies on serde_json::Value::as_str: the characters of a JSON string, or
/// None when the value is not a string — that is, `value_str` of the value.
#[verifier::external_body]
pub(crate) fn json_as_string(v: &serde_json::Value) -> (r: Option<String>)
    ensures
        r.deep_view() == value_str(*v),
{
    v.as_str().map(|s| s.to_owned())
}

/// Relies on serde_json::Value::as_u64: the value of a JSON number
/// representable as u64, or None otherwise — that is, `value_u64` of the
/// value.
#[verifier::external_body]
pub(crate) fn json_as_u64(v: &serde_json::Value) -> (r: Option<u64>)
    ensures
        r == value_u64(*v),
{
    v.as_u64()
}

/// Relies on serde_json::Value::as_array: the elements of a JSON array, or
/// None when the value is not an array — that is, `value_array` of the
/// value.
#[verifier::external_body]
pub(crate) fn json_as_array(v: &serde_json::Value) -> (r: Option<&Vec<serde_json::Value>>)
    ensures
        r is Some <==> value_array(*v) is Some,
        r matches Some(a) ==> a@ == value_array(*v)->0,
{
    v.as_array()
}

/// Relies on serde_json::Value::Null: the JSON null value, the defined
/// default for an omitted event payload.
#[verifier::external_body]
pub(crate) fn json_null() -> (r: serde_json::Value)
    ensures
        value_is_null(r),
{
    serde_json::Value::Null
}

} // verus!
