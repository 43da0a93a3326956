//! Trusted boundary to chrono: reading the clock and parsing timestamps.

use vstd::prelude::*;

verus! {

/// The instant an RFC 3339 timestamp names, in milliseconds since the Unix
/// epoch; None when the text is not such a timestamp. Parsing is a function
/// of the text alone, so the result carries this name and nothing more.
pub uninterp spec fn rfc3339_millis(s: Seq<char>) -> Option<i64>;

/// Relies on chrono::Utc::now and DateTime::timestamp_millis: the current
/// time in milliseconds since the Unix epoch. The result depends on the
/// clock, so nothing is assumed of it. This also relies on the system clock
/// standing at or after the Unix epoch: before it, `Utc::now` panics on the
/// platforms chrono reads the clock through.
#[verifier::external_body]
pub(crate) fn now_millis() -> (r: i64) {
    chrono::Utc::now().timestamp_millis()
}

/// Relies on chrono::DateTime::parse_from_rfc3339 and timestamp_millis: the
/// instant named by an RFC 3339 timestamp, in milliseconds since the Unix
/// epoch, or None when the text is not such a timestamp — that is,
/// `rfc3339_millis` of the text (RFC 3339's four-digit years keep
/// `timestamp_millis` far from overflow).
#[verifier::external_body]
pub(crate) fn parse_rfc3339_millis(s: &str) -> (r: Option<i64>)
    ensures
        r == rfc3339_millis(s@),
{
    match chrono::DateTime::parse_from_rfc3339(s) {
        Ok(dt) => Some(dt.timestamp_millis()),
        Err(_) => None,
    }
}

} // verus!
