//! The broker client's configuration and the one-shot publish call's logic:
//! credential validation, the endpoint URLs, and the classification of the
//! publish reply. The HTTP transport itself is the embedding application's.

use vstd::prelude::*;
use vstd::string::*;
use crate::error::NotifError;
use crate::types::EmitResponse;

verus! {

/// Whether `s` begins with the characters of `p`.
pub open spec fn has_prefix(s: Seq<char>, p: Seq<char>) -> bool {
    p.len() <= s.len() && s.subrange(0, p.len() as int) == p
}

/// Whether the characters of `s` begin with the characters of `p`.
fn str_has_prefix(s: &str, p: &str) -> (r: bool)
    ensures
        r == has_prefix(s@, p@),
{
    let sn = s.unicode_len();
    let pn = p.unicode_len();
    if pn > sn {
        return false;
    }
    let mut i: usize = 0;
    while i < pn
        invariant
            sn == s@.len(),
            pn == p@.len(),
            pn <= sn,
            i <= pn,
            forall|j: int| 0 <= j < i ==> s@[j] == p@[j],
        decreases pn - i,
    {
        let cs = s.get_char(i);
        let cp = p.get_char(i);
        if cs != cp {
            proof {
                if has_prefix(s@, p@) {
                    assert(s@.subrange(0, pn as int)[i as int] == s@[i as int]);
                    assert(false);
                }
            }
            return false;
        }
        i = i + 1;
    }
    proof {
        assert(s@.subrange(0, pn as int) =~= p@);
    }
    true
}

/// A well-formed credential: it begins with the broker's key prefix.
pub open spec fn api_key_valid(k: Seq<char>) -> bool {
    has_prefix(k, "nsh_"@)
}

/// Builder for creating a client with custom options.
#[derive(Debug, Clone)]
pub struct NotifBuilder {
    pub api_key: String,
    pub server: String,
    pub timeout_ms: u64,
}

impl NotifBuilder {
    /// Create a new builder with the given API key. The broker's public
    /// endpoint and a 30-second request timeout are the defaults.
    pub fn new(api_key: &str) -> (r: NotifBuilder)
        ensures
            r.api_key@ == api_key@,
            r.server@ == "https://api.notif.sh"@,
            r.timeout_ms == 30000,
    {
        NotifBuilder {
            api_key: api_key.to_owned(),
            server: String::from_str("https://api.notif.sh"),
            timeout_ms: 30000,
        }
    }

    /// Set the server URL.
    pub fn server(self, server: &str) -> (r: NotifBuilder)
        ensures
            r.api_key == self.api_key,
            r.server@ == server@,
            r.timeout_ms == self.timeout_ms,
    {
        NotifBuilder { server: server.to_owned(), ..self }
    }

    /// Set the request timeout, in milliseconds.
    pub fn timeout(self, timeout_ms: u64) -> (r: NotifBuilder)
        ensures
            r.api_key == self.api_key,
            r.server == self.server,
            r.timeout_ms == timeout_ms,
    {
        NotifBuilder { timeout_ms, ..self }
    }

    /// Build the client. A key that does not carry the broker's key prefix
    /// is rejected as an authentication error; a valid key yields the
    /// client with this builder's configuration, unchanged.
    pub fn build(self) -> (r: Result<Notif, NotifError>)
        ensures
            api_key_valid(self.api_key@) ==> (r matches Ok(n) && n.api_key == self.api_key
                && n.server == self.server && n.timeout_ms == self.timeout_ms),
            !api_key_valid(self.api_key@) ==> (r matches Err(NotifError::Auth(m)) && m@
                == "API key must start with 'nsh_'"@),
    {
        if str_has_prefix(self.api_key.as_str(), "nsh_") {
            Ok(
                Notif {
                    api_key: self.api_key,
                    server: self.server,
                    timeout_ms: self.timeout_ms,
                },
            )
        } else {
            Err(NotifError::auth("API key must start with 'nsh_'"))
        }
    }
}

/// The server URL with its scheme replaced by the streaming-equivalent one.
pub open spec fn ws_base_text(server: Seq<char>) -> Seq<char> {
    if has_prefix(server, "https://"@) {
        "wss://"@ + server.skip("https://"@.len() as int)
    } else if has_prefix(server, "http://"@) {
        "ws://"@ + server.skip("http://"@.len() as int)
    } else {
        server
    }
}

/// The streaming endpoint: the scheme made streaming-equivalent, and the
/// credential embedded as the token query.
pub open spec fn ws_url_text(server: Seq<char>, api_key: Seq<char>) -> Seq<char> {
    ws_base_text(server) + "/ws?token="@ + api_key
}

/// The validated client configuration: the credential, the HTTP(S) base
/// URL, and the request timeout in milliseconds. The transport that
/// performs requests belongs to the embedding application; everything the
/// broker must be sent is computed here.
#[derive(Debug, Clone)]
pub struct Notif {
    pub api_key: String,
    pub server: String,
    pub timeout_ms: u64,
}

impl Notif {
    /// Create a new builder with the given API key.
    pub fn builder(api_key: &str) -> (r: NotifBuilder)
        ensures
            r.api_key@ == api_key@,
            r.server@ == "https://api.notif.sh"@,
            r.timeout_ms == 30000,
    {
        NotifBuilder::new(api_key)
    }

    /// Get the configured server URL.
    pub fn server_url(&self) -> (r: &str)
        ensures
            r@ == self.server@,
    {
        self.server.as_str()
    }

    /// The URL of the one-shot publish endpoint.
    pub fn emit_url(&self) -> (r: String)
        ensures
            r@ == self.server@ + "/api/v1/emit"@,
    {
        let mut out = self.server.clone();
        out.append("/api/v1/emit");
        out
    }

    /// The streaming endpoint's URL, with the credential as its token.
    pub fn ws_url(&self) -> (r: String)
        ensures
            r@ == ws_url_text(self.server@, self.api_key@),
    {
        let mut out: String;
        if str_has_prefix(self.server.as_str(), "https://") {
            proof {
                reveal_strlit("https://");
            }
            out = String::from_str("wss://");
            let n = self.server.as_str().unicode_len();
            out.append(self.server.as_str().substring_char(8, n));
            proof {
                assert(self.server@.subrange(8, n as int) =~= self.server@.skip(
                    "https://"@.len() as int,
                ));
            }
        } else if str_has_prefix(self.server.as_str(), "http://") {
            proof {
                reveal_strlit("http://");
            }
            out = String::from_str("ws://");
            let n = self.server.as_str().unicode_len();
            out.append(self.server.as_str().substring_char(7, n));
            proof {
                assert(self.server@.subrange(7, n as int) =~= self.server@.skip(
                    "http://"@.len() as int,
                ));
            }
        } else {
            out = self.server.clone();
        }
        assert(out@ == ws_base_text(self.server@));
        out.append("/ws?token=");
        out.append(self.api_key.as_str());
        proof {
            assert(out@ =~= ws_url_text(self.server@, self.api_key@));
        }
        out
    }
}

/// Whether an HTTP status reports success.
pub open spec fn status_is_success(status: u16) -> bool {
    200 <= status < 300
}

/// Classify a reply to the one-shot publish call by its status: a 2xx reply
/// carries no error; 401 is an authentication failure and any other non-2xx
/// an API failure, each carrying the response body as its message.
pub fn eval_emit_status(status: u16, body: &str) -> (r: Option<NotifError>)
    ensures
        status_is_success(status) ==> r is None,
        !status_is_success(status) && status == 401 ==> (r matches Some(NotifError::Auth(m))
            && m@ == body@),
        !status_is_success(status) && status != 401 ==> (r matches Some(
            NotifError::Api { status: s, message: m },
        ) && s == status && m@ == body@),
{
    if 200 <= status && status < 300 {
        None
    } else if status == 401 {
        Some(NotifError::auth(body))
    } else {
        Some(NotifError::api(status, body))
    }
}

/// Assemble a publish response from its extracted fields. All three are
/// required; whichever is missing, the reply is rejected as a
/// serialization error.
pub fn emit_response_from_fields(
    id: Option<String>,
    topic: Option<String>,
    created_at_millis: Option<i64>,
) -> (r: Result<EmitResponse, NotifError>)
    ensures
        id is Some && topic is Some && created_at_millis is Some ==> (r matches Ok(resp)
            && resp.id == id->0 && resp.topic == topic->0 && resp.created_at_millis
            == created_at_millis->0),
        !(id is Some && topic is Some && created_at_millis is Some) ==> (r matches Err(
            NotifError::Serialization(m),
        ) && m@ == "malformed emit response: missing id, topic or created_at"@),
{
    match (id, topic, created_at_millis) {
        (Some(id), Some(topic), Some(created_at_millis)) => Ok(
            EmitResponse { id, topic, created_at_millis },
        ),
        _ => Err(
            NotifError::Serialization(
                String::from_str("malformed emit response: missing id, topic or created_at"),
            ),
        ),
    }
}

/// Whether a parsed publish reply carries its three required fields.
pub open spec fn emit_reply_fields_ok(v: serde_json::Value) -> bool {
    &&& crate::decode::spec_string_field(v, "id"@) is Some
    &&& crate::decode::spec_string_field(v, "topic"@) is Some
    &&& crate::decode::spec_timestamp_field(v, "created_at"@) is Some
}

/// What parsing a well-formed publish reply yields, given its parsed value:
/// the response with the body's id, topic and creation time when all three
/// are present, and a serialization error naming the lack otherwise.
pub open spec fn emit_parse_matches(v: serde_json::Value, r: Result<EmitResponse, NotifError>) -> bool {
    if emit_reply_fields_ok(v) {
        &&& r matches Ok(resp)
        &&& resp.id@ == crate::decode::spec_string_field(v, "id"@)->0
        &&& resp.topic@ == crate::decode::spec_string_field(v, "topic"@)->0
        &&& resp.created_at_millis == crate::decode::spec_timestamp_field(v, "created_at"@)->0
    } else {
        r matches Err(NotifError::Serialization(m)) && m@
            == "malformed emit response: missing id, topic or created_at"@
    }
}

/// Parse the body of a successful publish reply: exactly the bodies that
/// are well-formed JSON parse, to what `emit_parse_matches` says of the
/// body's parsed value; any other body is a serialization error.
pub fn parse_emit_response(body: &str) -> (r: Result<EmitResponse, NotifError>)
    ensures
        r matches Err(e) ==> e is Serialization,
        !crate::json::json_ok(body@) ==> r is Err,
        crate::json::json_ok(body@) ==> emit_parse_matches(crate::json::parsed_value(body@), r),
{
    match crate::json::json_parse(body) {
        Err(e) => Err(NotifError::Serialization(crate::json::json_error_string(&e))),
        Ok(v) => {
            let id = crate::decode::get_string_field(&v, "id");
            let topic = crate::decode::get_string_field(&v, "topic");
            let created_at_millis = crate::decode::get_timestamp_field(&v, "created_at");
            emit_response_from_fields(id, topic, created_at_millis)
        },
    }
}

/// Evaluate a full publish reply: the status decides first, exactly as
/// `eval_emit_status` says; a successful status hands the body to
/// `parse_emit_response`, whose contract pins the rest.
pub fn eval_emit_reply(status: u16, body: &str) -> (r: Result<EmitResponse, NotifError>)
    ensures
        !status_is_success(status) && status == 401 ==> (r matches Err(NotifError::Auth(m))
            && m@ == body@),
        !status_is_success(status) && status != 401 ==> (r matches Err(
            NotifError::Api { status: s, message: m },
        ) && s == status && m@ == body@),
        status_is_success(status) ==> (r matches Err(e) ==> e is Serialization),
        status_is_success(status) && !crate::json::json_ok(body@) ==> r is Err,
        status_is_success(status) && crate::json::json_ok(body@) ==> emit_parse_matches(
            crate::json::parsed_value(body@),
            r,
        ),
{
    match eval_emit_status(status, body) {
        Some(e) => Err(e),
        None => parse_emit_response(body),
    }
}

} // verus!
