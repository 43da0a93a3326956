//! Wire protocol codec: the frame texts the client sends.
//!
//! Frames are JSON objects. The outbound direction (subscribe, ack, nack,
//! and the publish request body) is encoded here character by character,
//! against spec functions that give the exact frame text.

use vstd::prelude::*;
use vstd::string::*;

verus! {

/// The hexadecimal digit for a value below 16.
pub open spec fn hex_digit(n: int) -> char
    recommends
        0 <= n < 16,
{
    if n == 0 {
        '0'
    } else if n == 1 {
        '1'
    } else if n == 2 {
        '2'
    } else if n == 3 {
        '3'
    } else if n == 4 {
        '4'
    } else if n == 5 {
        '5'
    } else if n == 6 {
        '6'
    } else if n == 7 {
        '7'
    } else if n == 8 {
        '8'
    } else if n == 9 {
        '9'
    } else if n == 10 {
        'a'
    } else if n == 11 {
        'b'
    } else if n == 12 {
        'c'
    } else if n == 13 {
        'd'
    } else if n == 14 {
        'e'
    } else {
        'f'
    }
}

/// How one character appears inside a JSON string literal: quotes and
/// backslashes are escaped, control characters take their short escape or a
/// \u00xx escape, and every other character stands as itself.
pub open spec fn json_escaped_char(c: char) -> Seq<char> {
    if c == '"' {
        seq!['\\', '"']
    } else if c == '\\' {
        seq!['\\', '\\']
    } else if c == '\n' {
        seq!['\\', 'n']
    } else if c == '\r' {
        seq!['\\', 'r']
    } else if c == '\t' {
        seq!['\\', 't']
    } else if (c as u32) < 32 {
        seq!['\\', 'u', '0', '0', hex_digit((c as u32 / 16) as int), hex_digit((c as u32 % 16) as int)]
    } else {
        seq![c]
    }
}

/// The body of a JSON string literal holding the given characters.
pub open spec fn json_escaped(s: Seq<char>) -> Seq<char>
    decreases s.len(),
{
    if s.len() == 0 {
        Seq::<char>::empty()
    } else {
        json_escaped_char(s[0]) + json_escaped(s.skip(1))
    }
}

/// A full JSON string literal: the escaped characters between quotes.
pub open spec fn json_quoted(s: Seq<char>) -> Seq<char> {
    seq!['"'] + json_escaped(s) + seq!['"']
}

proof fn lemma_json_escaped_push(s: Seq<char>, c: char)
    ensures
        json_escaped(s.push(c)) == json_escaped(s) + json_escaped_char(c),
    decreases s.len(),
{
    if s.len() == 0 {
        assert(s.push(c)[0] == c);
        assert(s.push(c).skip(1) =~= s);
        assert(json_escaped(s) =~= Seq::<char>::empty());
        assert(json_escaped(s.push(c)) == json_escaped_char(c) + json_escaped(s.push(c).skip(1)));
        assert(json_escaped(s.push(c)) =~= json_escaped(s) + json_escaped_char(c));
    } else {
        assert(s.push(c)[0] == s[0]);
        assert(s.push(c).skip(1) =~= s.skip(1).push(c));
        lemma_json_escaped_push(s.skip(1), c);
        assert(json_escaped(s.push(c)) == json_escaped_char(s[0]) + json_escaped(
            s.skip(1).push(c),
        ));
        assert(json_escaped(s) == json_escaped_char(s[0]) + json_escaped(s.skip(1)));
        assert(json_escaped(s.push(c)) =~= json_escaped(s) + json_escaped_char(c));
    }
}

/// Relies on std's String::push: appends the given character.
#[verifier::external_body]
fn push_char(s: &mut String, c: char)
    ensures
        final(s)@ == old(s)@.push(c),
{
    s.push(c)
}

fn hex_digit_char(n: u32) -> (c: char)
    requires
        n < 16,
    ensures
        c == hex_digit(n as int),
{
    if n == 0 {
        '0'
    } else if n == 1 {
        '1'
    } else if n == 2 {
        '2'
    } else if n == 3 {
        '3'
    } else if n == 4 {
        '4'
    } else if n == 5 {
        '5'
    } else if n == 6 {
        '6'
    } else if n == 7 {
        '7'
    } else if n == 8 {
        '8'
    } else if n == 9 {
        '9'
    } else if n == 10 {
        'a'
    } else if n == 11 {
        'b'
    } else if n == 12 {
        'c'
    } else if n == 13 {
        'd'
    } else if n == 14 {
        'e'
    } else {
        'f'
    }
}

/// Append the escaped form of one character.
fn append_escaped_char(out: &mut String, c: char)
    ensures
        final(out)@ == old(out)@ + json_escaped_char(c),
{
    if c == '"' {
        proof {
            reveal_strlit("\\\"");
        }
        out.append("\\\"");
        assert(out@ =~= old(out)@ + json_escaped_char(c));
    } else if c == '\\' {
        proof {
            reveal_strlit("\\\\");
        }
        out.append("\\\\");
        assert(out@ =~= old(out)@ + json_escaped_char(c));
    } else if c == '\n' {
        proof {
            reveal_strlit("\\n");
        }
        out.append("\\n");
        assert(out@ =~= old(out)@ + json_escaped_char(c));
    } else if c == '\r' {
        proof {
            reveal_strlit("\\r");
        }
        out.append("\\r");
        assert(out@ =~= old(out)@ + json_escaped_char(c));
    } else if c == '\t' {
        proof {
            reveal_strlit("\\t");
        }
        out.append("\\t");
        assert(out@ =~= old(out)@ + json_escaped_char(c));
    } else if (c as u32) < 32 {
        proof {
            reveal_strlit("\\u00");
        }
        out.append("\\u00");
        let hi = hex_digit_char((c as u32) / 16);
        let lo = hex_digit_char((c as u32) % 16);
        push_char(out, hi);
        push_char(out, lo);
        assert(out@ =~= old(out)@ + json_escaped_char(c));
    } else {
        push_char(out, c);
        assert(out@ =~= old(out)@ + json_escaped_char(c));
    }
}

/// Append the body of a JSON string literal holding the characters of `s`.
fn append_escaped(out: &mut String, s: &str)
    ensures
        final(out)@ == old(out)@ + json_escaped(s@),
{
    let n = s.unicode_len();
    let mut i: usize = 0;
    while i < n
        invariant
            n == s@.len(),
            i <= n,
            out@ == old(out)@ + json_escaped(s@.subrange(0, i as int)),
        decreases n - i,
    {
        let c = s.get_char(i);
        proof {
            assert(s@.subrange(0, i as int).push(c) =~= s@.subrange(0, i as int + 1));
            lemma_json_escaped_push(s@.subrange(0, i as int), c);
        }
        append_escaped_char(out, c);
        i = i + 1;
    }
    proof {
        assert(s@.subrange(0, n as int) =~= s@);
        assert(json_escaped(s@.subrange(0, 0 as int)) =~= Seq::<char>::empty());
        assert(out@ =~= old(out)@ + json_escaped(s@));
    }
}

/// Append a full JSON string literal holding the characters of `s`.
fn append_quoted(out: &mut String, s: &str)
    ensures
        final(out)@ == old(out)@ + json_quoted(s@),
{
    proof {
        reveal_strlit("\"");
    }
    out.append("\"");
    append_escaped(out, s);
    out.append("\"");
    assert(out@ =~= old(out)@ + json_quoted(s@));
}

/// Encode the characters of `s` as a JSON string literal.
pub fn escape_json_string(s: &str) -> (r: String)
    ensures
        r@ == json_quoted(s@),
{
    let mut out = String::new();
    append_quoted(&mut out, s);
    proof {
        assert(out@ =~= json_quoted(s@));
    }
    out
}

/// The text of a JSON boolean.
pub open spec fn bool_text(b: bool) -> Seq<char> {
    if b {
        "true"@
    } else {
        "false"@
    }
}

/// The members of a JSON array of strings, comma-separated.
pub open spec fn string_list_text(ts: Seq<Seq<char>>) -> Seq<char>
    decreases ts.len(),
{
    if ts.len() == 0 {
        Seq::<char>::empty()
    } else if ts.len() == 1 {
        json_quoted(ts[0])
    } else {
        json_quoted(ts[0]) + ","@ + string_list_text(ts.skip(1))
    }
}

/// A JSON array of strings.
pub open spec fn string_array_text(ts: Seq<Seq<char>>) -> Seq<char> {
    "["@ + string_list_text(ts) + "]"@
}

/// The options object of a subscribe frame: `auto_ack` always, `from` and
/// `group` only when present.
pub open spec fn options_object_text(
    auto_ack: bool,
    from: Option<Seq<char>>,
    group: Option<Seq<char>>,
) -> Seq<char> {
    "{\"auto_ack\":"@ + bool_text(auto_ack) + (match from {
        Some(f) => ",\"from\":"@ + json_quoted(f),
        None => Seq::<char>::empty(),
    }) + (match group {
        Some(g) => ",\"group\":"@ + json_quoted(g),
        None => Seq::<char>::empty(),
    }) + "}"@
}

/// The subscribe frame naming the requested topics and carrying the
/// subscription options.
pub open spec fn subscribe_frame_text(
    topics: Seq<Seq<char>>,
    auto_ack: bool,
    from: Option<Seq<char>>,
    group: Option<Seq<char>>,
) -> Seq<char> {
    "{\"action\":\"subscribe\",\"topics\":"@ + string_array_text(topics) + ",\"options\":"@
        + options_object_text(auto_ack, from, group) + "}"@
}

/// The ack frame for a delivered event.
pub open spec fn ack_frame_text(id: Seq<char>) -> Seq<char> {
    "{\"action\":\"ack\",\"id\":"@ + json_quoted(id) + "}"@
}

/// The nack frame for a delivered event, with its optional retry delay.
pub open spec fn nack_frame_text(id: Seq<char>, retry_in: Option<Seq<char>>) -> Seq<char> {
    "{\"action\":\"nack\",\"id\":"@ + json_quoted(id) + (match retry_in {
        Some(d) => ",\"retry_in\":"@ + json_quoted(d),
        None => Seq::<char>::empty(),
    }) + "}"@
}

/// The body of a one-shot publish request: the topic, and the payload's own
/// JSON text spliced in unchanged.
pub open spec fn emit_body_text(topic: Seq<char>, data_text: Seq<char>) -> Seq<char> {
    "{\"topic\":"@ + json_quoted(topic) + ",\"data\":"@ + data_text + "}"@
}

proof fn lemma_string_list_push(ts: Seq<Seq<char>>, t: Seq<char>)
    ensures
        string_list_text(ts.push(t)) == if ts.len() == 0 {
            json_quoted(t)
        } else {
            string_list_text(ts) + ","@ + json_quoted(t)
        },
    decreases ts.len(),
{
    if ts.len() == 0 {
        assert(ts.push(t)[0] == t);
        assert(ts.push(t).len() == 1);
        assert(string_list_text(ts.push(t)) == json_quoted(t));
    } else if ts.len() == 1 {
        assert(ts.push(t)[0] == ts[0]);
        assert(ts.push(t).skip(1) =~= seq![t]);
        assert(seq![t][0] == t);
        assert(string_list_text(seq![t]) == json_quoted(t));
        assert(string_list_text(ts.push(t)) == json_quoted(ts[0]) + ","@ + string_list_text(
            ts.push(t).skip(1),
        ));
        assert(string_list_text(ts) == json_quoted(ts[0]));
        assert(string_list_text(ts.push(t)) =~= string_list_text(ts) + ","@ + json_quoted(t));
    } else {
        assert(ts.push(t)[0] == ts[0]);
        assert(ts.push(t).skip(1) =~= ts.skip(1).push(t));
        lemma_string_list_push(ts.skip(1), t);
        assert(string_list_text(ts.push(t)) == json_quoted(ts[0]) + ","@ + string_list_text(
            ts.skip(1).push(t),
        ));
        assert(string_list_text(ts) == json_quoted(ts[0]) + ","@ + string_list_text(ts.skip(1)));
        assert(string_list_text(ts.push(t)) =~= string_list_text(ts) + ","@ + json_quoted(t));
    }
}

/// Append a JSON array holding the given strings.
fn append_string_array(out: &mut String, topics: &Vec<String>)
    ensures
        final(out)@ == old(out)@ + string_array_text(topics.deep_view()),
{
    out.append("[");
    let ghost prefix = old(out)@ + "["@;
    proof {
        assert(string_list_text(topics.deep_view().subrange(0, 0)) =~= Seq::<char>::empty());
        assert(out@ =~= prefix + string_list_text(topics.deep_view().subrange(0, 0)));
    }
    let n = topics.len();
    let mut i: usize = 0;
    while i < n
        invariant
            n == topics.len(),
            i <= n,
            out@ == prefix + string_list_text(topics.deep_view().subrange(0, i as int)),
        decreases n - i,
    {
        if i > 0 {
            out.append(",");
        }
        append_quoted(out, topics[i].as_str());
        proof {
            assert(topics.deep_view().subrange(0, i as int).push(topics@[i as int]@) =~= topics
                .deep_view()
                .subrange(0, i as int + 1));
            lemma_string_list_push(topics.deep_view().subrange(0, i as int), topics@[i as int]@);
            assert(out@ =~= prefix + string_list_text(
                topics.deep_view().subrange(0, i as int + 1),
            ));
        }
        i = i + 1;
    }
    out.append("]");
    proof {
        assert(topics.deep_view().subrange(0, n as int) =~= topics.deep_view());
        assert(out@ =~= old(out)@ + string_array_text(topics.deep_view()));
    }
}

/// Append the options object of a subscribe frame.
fn append_options(out: &mut String, options: &crate::types::SubscribeOptions)
    ensures
        final(out)@ == old(out)@ + options_object_text(
            options.auto_ack,
            options.from.deep_view(),
            options.group.deep_view(),
        ),
{
    out.append("{\"auto_ack\":");
    if options.auto_ack {
        out.append("true");
    } else {
        out.append("false");
    }
    let ghost head = old(out)@ + "{\"auto_ack\":"@ + bool_text(options.auto_ack);
    assert(out@ =~= head);
    match &options.from {
        Some(f) => {
            out.append(",\"from\":");
            append_quoted(out, f.as_str());
            assert(out@ =~= head + (",\"from\":"@ + json_quoted(f@)));
        },
        None => {},
    }
    let ghost mid = head + (match options.from.deep_view() {
        Some(f) => ",\"from\":"@ + json_quoted(f),
        None => Seq::<char>::empty(),
    });
    assert(out@ =~= mid);
    match &options.group {
        Some(g) => {
            out.append(",\"group\":");
            append_quoted(out, g.as_str());
            assert(out@ =~= mid + (",\"group\":"@ + json_quoted(g@)));
        },
        None => {},
    }
    out.append("}");
    proof {
        assert(out@ =~= old(out)@ + options_object_text(
            options.auto_ack,
            options.from.deep_view(),
            options.group.deep_view(),
        ));
    }
}

/// Encode the ack frame for the event with the given id.
pub fn encode_ack(id: &str) -> (r: String)
    ensures
        r@ == ack_frame_text(id@),
{
    let mut out = String::from_str("{\"action\":\"ack\",\"id\":");
    append_quoted(&mut out, id);
    out.append("}");
    proof {
        assert(out@ =~= ack_frame_text(id@));
    }
    out
}

/// Encode the nack frame for the event with the given id and retry delay.
pub fn encode_nack(id: &str, retry_in: Option<&str>) -> (r: String)
    ensures
        r@ == nack_frame_text(id@, crate::types::opt_str_view(retry_in)),
{
    let mut out = String::from_str("{\"action\":\"nack\",\"id\":");
    append_quoted(&mut out, id);
    match retry_in {
        Some(d) => {
            out.append(",\"retry_in\":");
            append_quoted(&mut out, d);
        },
        None => {},
    }
    out.append("}");
    proof {
        assert(out@ =~= nack_frame_text(id@, crate::types::opt_str_view(retry_in)));
    }
    out
}

/// Encode the subscribe frame naming the requested topics and carrying the
/// subscription options.
pub fn encode_subscribe(topics: &Vec<String>, options: &crate::types::SubscribeOptions) -> (r:
    String)
    ensures
        r@ == subscribe_frame_text(
            topics.deep_view(),
            options.auto_ack,
            options.from.deep_view(),
            options.group.deep_view(),
        ),
{
    let mut out = String::from_str("{\"action\":\"subscribe\",\"topics\":");
    append_string_array(&mut out, topics);
    out.append(",\"options\":");
    append_options(&mut out, options);
    out.append("}");
    proof {
        assert(out@ =~= subscribe_frame_text(
            topics.deep_view(),
            options.auto_ack,
            options.from.deep_view(),
            options.group.deep_view(),
        ));
    }
    out
}

/// Encode the body of a one-shot publish request. `data_text` is the
/// payload's own JSON text, spliced in unchanged.
pub fn encode_emit_body(topic: &str, data_text: &str) -> (r: String)
    ensures
        r@ == emit_body_text(topic@, data_text@),
{
    let mut out = String::from_str("{\"topic\":");
    append_quoted(&mut out, topic);
    out.append(",\"data\":");
    out.append(data_text);
    out.append("}");
    proof {
        assert(out@ =~= emit_body_text(topic@, data_text@));
    }
    out
}

} // verus!
