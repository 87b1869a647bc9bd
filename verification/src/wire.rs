//! Wire-level helpers: building the JSON documents the protocol exchanges
//! and reading the JSON envelopes servers answer with.
//!
//! Response envelopes are parsed with serde_json behind trusted wrappers;
//! everything decided about a response — transport versus logical failure,
//! probe payload validity — is decided by the verified functions here over
//! the plain values those wrappers hand back.

use vstd::prelude::*;

use crate::elect::ProbeResult;
use crate::query::AttemptOutcome;

verus! {

/// The character of one decimal digit.
pub open spec fn spec_digit_char(d: int) -> char {
    if d == 0 {
        '0'
    } else if d == 1 {
        '1'
    } else if d == 2 {
        '2'
    } else if d == 3 {
        '3'
    } else if d == 4 {
        '4'
    } else if d == 5 {
        '5'
    } else if d == 6 {
        '6'
    } else if d == 7 {
        '7'
    } else if d == 8 {
        '8'
    } else {
        '9'
    }
}

/// The decimal rendering of a non-negative integer, most significant digit
/// first, with no leading zeroes except for zero itself.
pub open spec fn spec_dec(n: int) -> Seq<char>
    decreases n,
{
    if n < 10 {
        seq![spec_digit_char(n)]
    } else {
        spec_dec(n / 10).push(spec_digit_char(n % 10))
    }
}

/// The one-character string of a decimal digit.
fn digit_str(d: u64) -> (r: &'static str)
    requires
        d < 10,
    ensures
        r@ =~= seq![spec_digit_char(d as int)],
{
    if d == 0 {
        proof {
            reveal_strlit("0");
        }
        "0"
    } else if d == 1 {
        proof {
            reveal_strlit("1");
        }
        "1"
    } else if d == 2 {
        proof {
            reveal_strlit("2");
        }
        "2"
    } else if d == 3 {
        proof {
            reveal_strlit("3");
        }
        "3"
    } else if d == 4 {
        proof {
            reveal_strlit("4");
        }
        "4"
    } else if d == 5 {
        proof {
            reveal_strlit("5");
        }
        "5"
    } else if d == 6 {
        proof {
            reveal_strlit("6");
        }
        "6"
    } else if d == 7 {
        proof {
            reveal_strlit("7");
        }
        "7"
    } else if d == 8 {
        proof {
            reveal_strlit("8");
        }
        "8"
    } else {
        proof {
            reveal_strlit("9");
        }
        "9"
    }
}

/// Appends the decimal rendering of `n` to `s`.
pub fn append_dec(s: &mut String, n: u64)
    ensures
        final(s)@ == old(s)@ + spec_dec(n as int),
    decreases n,
{
    if n >= 10 {
        append_dec(s, n / 10);
        s.append(digit_str(n % 10));
        proof {
            assert(old(s)@ + spec_dec(n as int) =~= (old(s)@ + spec_dec(n as int / 10)) + seq![
                spec_digit_char(n as int % 10),
            ]);
        }
    } else {
        s.append(digit_str(n));
    }
}

/// The decimal rendering of `n` as a string.
pub fn u64_to_dec(n: u64) -> (r: String)
    ensures
        r@ == spec_dec(n as int),
    {
    let mut s = String::new();
    append_dec(&mut s, n);
    s
}

/// The exact reply body of a healthy info probe, as a canned transport
/// serves it when the client is exercised offline: the `data.info` document
/// with the given server time and last block time, keys in lexicographic
/// order as serde_json serializes maps.
pub open spec fn spec_r_info(time: int, block_time: int) -> Seq<char> {
    "{\"data\":{\"info\":{\"lastBlockTime\":"@ + spec_dec(block_time) + ",\"time\":"@ + spec_dec(
        time,
    ) + ",\"version\":\"0.37.0\"}}}"@
}

/// Builds the reply body of a healthy info probe.
pub fn r_info(time: u64, block_time: u64) -> (r: String)
    ensures
        r@ == spec_r_info(time as int, block_time as int),
{
    let mut s = String::new();
    s.append("{\"data\":{\"info\":{\"lastBlockTime\":");
    append_dec(&mut s, block_time);
    s.append(",\"time\":");
    append_dec(&mut s, time);
    s.append(",\"version\":\"0.37.0\"}}}");
    proof {
        assert(s@ =~= spec_r_info(time as int, block_time as int));
    }
    s
}

/// The character of one lowercase hexadecimal digit.
pub open spec fn spec_hex_digit_char(d: int) -> char {
    if d < 10 {
        spec_digit_char(d)
    } else if d == 10 {
        'a'
    } else if d == 11 {
        'b'
    } else if d == 12 {
        'c'
    } else if d == 13 {
        'd'
    } else if d == 14 {
        'e'
    } else {
        'f'
    }
}

/// The one-character string of a lowercase hexadecimal digit.
fn hex_digit_str(d: u32) -> (r: &'static str)
    requires
        d < 16,
    ensures
        r@ =~= seq![spec_hex_digit_char(d as int)],
{
    if d < 10 {
        digit_str(d as u64)
    } else if d == 10 {
        proof {
            reveal_strlit("a");
        }
        "a"
    } else if d == 11 {
        proof {
            reveal_strlit("b");
        }
        "b"
    } else if d == 12 {
        proof {
            reveal_strlit("c");
        }
        "c"
    } else if d == 13 {
        proof {
            reveal_strlit("d");
        }
        "d"
    } else if d == 14 {
        proof {
            reveal_strlit("e");
        }
        "e"
    } else {
        proof {
            reveal_strlit("f");
        }
        "f"
    }
}

/// The JSON string escaping of one character, exactly as serde_json writes
/// it: quote and backslash with a backslash, the five short control forms,
/// any other control character as `\u00xy` with lowercase hex, and every
/// other character as itself.
pub open spec fn spec_json_escape_char(c: char) -> Seq<char> {
    if c == '"' {
        seq!['\\', '"']
    } else if c == '\\' {
        seq!['\\', '\\']
    } else if c == '\u{8}' {
        seq!['\\', 'b']
    } else if c == '\t' {
        seq!['\\', 't']
    } else if c == '\n' {
        seq!['\\', 'n']
    } else if c == '\u{c}' {
        seq!['\\', 'f']
    } else if c == '\r' {
        seq!['\\', 'r']
    } else if (c as int) < 32 {
        let v = c as int;
        seq!['\\', 'u', '0', '0', spec_hex_digit_char(v / 16), spec_hex_digit_char(v % 16)]
    } else {
        seq![c]
    }
}

/// The JSON string escaping of a whole string.
pub open spec fn spec_json_escaped(s: Seq<char>) -> Seq<char>
    decreases s.len(),
{
    if s.len() == 0 {
        Seq::empty()
    } else {
        spec_json_escaped(s.drop_last()) + spec_json_escape_char(s.last())
    }
}

/// Appends the JSON escaping of one character.
fn append_escaped_char(out: &mut String, c: char)
    ensures
        final(out)@ == old(out)@ + spec_json_escape_char(c),
{
    if c == '"' {
        proof {
            reveal_strlit("\\\"");
        }
        out.append("\\\"");
    } else if c == '\\' {
        proof {
            reveal_strlit("\\\\");
        }
        out.append("\\\\");
    } else if c == '\u{8}' {
        proof {
            reveal_strlit("\\b");
        }
        out.append("\\b");
    } else if c == '\t' {
        proof {
            reveal_strlit("\\t");
        }
        out.append("\\t");
    } else if c == '\n' {
        proof {
            reveal_strlit("\\n");
        }
        out.append("\\n");
    } else if c == '\u{c}' {
        proof {
            reveal_strlit("\\f");
        }
        out.append("\\f");
    } else if c == '\r' {
        proof {
            reveal_strlit("\\r");
        }
        out.append("\\r");
    } else if (c as u32) < 32 {
        proof {
            reveal_strlit("\\u00");
        }
        out.append("\\u00");
        out.append(hex_digit_str((c as u32) / 16));
        out.append(hex_digit_str((c as u32) % 16));
        proof {
            assert(final(out)@ =~= old(out)@ + spec_json_escape_char(c));
        }
    } else {
        push_char(out, c);
        proof {
            assert(final(out)@ =~= old(out)@ + seq![c]);
        }
    }
}

/// Relies on std's String::push: appends exactly the given character.
#[verifier::external_body]
fn push_char(s: &mut String, c: char)
    ensures
        final(s)@ == old(s)@ + seq![c],
{
    s.push(c);
}

/// Escapes a string for inclusion in a JSON string literal, exactly as
/// serde_json serializes it.
pub fn json_escape(s: &str) -> (r: String)
    ensures
        r@ == spec_json_escaped(s@),
{
    let n = s.unicode_len();
    let mut out = String::new();
    let mut i: usize = 0;
    while i < n
        invariant
            i <= n == s@.len(),
            out@ == spec_json_escaped(s@.take(i as int)),
        decreases n - i,
    {
        let c = s.get_char(i);
        append_escaped_char(&mut out, c);
        proof {
            assert(s@.take(i + 1).drop_last() =~= s@.take(i as int));
            assert(s@.take(i + 1).last() == s@[i as int]);
        }
        i += 1;
    }
    proof {
        assert(s@.take(n as int) =~= s@);
    }
    out
}

/// The exact reply body of a `blocks` collection query that found one block
/// with the given id; the id stands in the document JSON-escaped.
pub open spec fn spec_r_blocks(id: Seq<char>) -> Seq<char> {
    "{\"data\":{\"blocks\":[{\"id\":\""@ + spec_json_escaped(id) + "\"}]}}"@
}

/// Builds the reply body of a `blocks` collection query holding one block
/// id, escaping the id as serde_json would.
pub fn r_blocks(id: &str) -> (r: String)
    ensures
        r@ == spec_r_blocks(id@),
{
    let mut s = String::new();
    s.append("{\"data\":{\"blocks\":[{\"id\":\"");
    let escaped = json_escape(id);
    s.append(escaped.as_str());
    s.append("\"}]}}");
    proof {
        assert(s@ =~= spec_r_blocks(id@));
    }
    s
}

/// How a well-formed-ness inspection classifies a response body.
#[derive(Debug, Clone, Copy, PartialEq, Eq, Structural)]
pub enum ResponseClass {
    /// Not a JSON envelope at all, or one carrying neither data nor errors:
    /// treated like a transport failure and retried.
    Malformed,
    /// A well-formed envelope with a non-empty `errors` array: a logical
    /// error, propagated without retry.
    Logical,
    /// A well-formed envelope carrying `data`.
    Data,
}

/// The classification of an envelope whose inspection found: whether it
/// parsed, how many entries its `errors` array has (if any), and whether a
/// `data` member is present.
pub open spec fn spec_classify(parse_ok: bool, errors_len: Option<usize>, has_data: bool) -> ResponseClass {
    if !parse_ok {
        ResponseClass::Malformed
    } else if errors_len matches Option::Some(n) && n > 0 {
        ResponseClass::Logical
    } else if has_data {
        ResponseClass::Data
    } else {
        ResponseClass::Malformed
    }
}

/// Classifies an inspected envelope: unparsable bodies and envelopes
/// without `data` are malformed, a non-empty `errors` array is a logical
/// error, everything else is data.
pub fn classify_parsed(parse_ok: bool, errors_len: Option<usize>, has_data: bool) -> (c: ResponseClass)
    ensures
        c == spec_classify(parse_ok, errors_len, has_data),
{
    if !parse_ok {
        ResponseClass::Malformed
    } else {
        let logical = match errors_len {
            Some(n) => n > 0,
            None => false,
        };
        if logical {
            ResponseClass::Logical
        } else if has_data {
            ResponseClass::Data
        } else {
            ResponseClass::Malformed
        }
    }
}

/// The three facts serde_json reads out of a response envelope: whether the
/// body parses as JSON, the length of its `errors` array when it is one,
/// and whether a `data` member is present. The facts depend on the body's
/// characters alone.
pub uninterp spec fn spec_envelope_facts(s: Seq<char>) -> (bool, Option<usize>, bool);

/// Relies on serde_json::from_str, Value::get and Value::as_array: reads
/// the envelope facts — parses?, `errors` array length, `data` present? —
/// whose values depend on the body alone.
#[verifier::external_body]
fn envelope_facts(s: &str) -> (r: (bool, Option<usize>, bool))
    ensures
        r == spec_envelope_facts(s@),
{
    match serde_json::from_str::<serde_json::Value>(s) {
        Err(_) => (false, None, false),
        Ok(v) => (
            true,
            v.get("errors").and_then(|e| e.as_array()).map(|a| a.len()),
            v.get("data").is_some(),
        ),
    }
}

/// Inspects a response body and classifies it from the envelope facts
/// serde_json reads out of it, exactly as `classify_parsed` says.
pub fn classify_response_body(body: &str) -> (c: ResponseClass)
    ensures
        ({
            let f = spec_envelope_facts(body@);
            c == spec_classify(f.0, f.1, f.2)
        }),
{
    let facts = envelope_facts(body);
    classify_parsed(facts.0, facts.1, facts.2)
}

/// The fields of an `info { version, time, lastBlockTime }` probe payload.
#[derive(Debug)]
pub struct EndpointInfo {
    /// The server's version string; empty when the reply omitted it.
    pub version: String,
    /// The server's wall clock, ms; zero when the reply omitted it.
    pub time: u64,
    /// The server's last block time, ms.
    pub last_block_time: u64,
}

/// The facts serde_json reads out of a probe reply: `None` unless
/// `data.info.lastBlockTime` is a `u64` number, else that number, the
/// `time` member (zero when absent or not a `u64`) and the `version`
/// string (empty when absent or not a string). The facts depend on the
/// body's characters alone.
pub uninterp spec fn spec_info_facts(s: Seq<char>) -> Option<(u64, u64, Seq<char>)>;

/// Relies on serde_json::from_str, Value::get, Value::as_u64 and
/// Value::as_str: reads the `data.info` facts — last block time, time,
/// version — whose values depend on the body alone.
#[verifier::external_body]
fn info_facts(s: &str) -> (r: Option<(u64, u64, String)>)
    ensures
        r is Some <==> spec_info_facts(s@) is Some,
        r matches Option::Some(f) ==> (spec_info_facts(s@) matches Option::Some(g) && f.0 == g.0
            && f.1 == g.1 && f.2@ == g.2),
{
    let v: serde_json::Value = serde_json::from_str(s).ok()?;
    let info = v.get("data")?.get("info")?;
    let last_block_time = info.get("lastBlockTime")?.as_u64()?;
    let time = info.get("time").and_then(|t| t.as_u64()).unwrap_or(0);
    let version = info.get("version").and_then(|x| x.as_str()).unwrap_or("").to_string();
    Some((last_block_time, time, version))
}

/// Reads the probe payload out of a response body: the payload is valid
/// exactly when `data.info.lastBlockTime` is a `u64` number, and the
/// carried fields are the facts serde_json read.
pub fn parse_info(body: &str) -> (r: Option<EndpointInfo>)
    ensures
        r is Some <==> spec_info_facts(body@) is Some,
        r matches Option::Some(i) ==> (spec_info_facts(body@) matches Option::Some(f)
            && i.last_block_time == f.0 && i.time == f.1 && i.version@ == f.2),
{
    match info_facts(body) {
        None => None,
        Some((last_block_time, time, version)) => Some(
            EndpointInfo { version, time, last_block_time },
        ),
    }
}

/// The id of the first block in a `blocks` collection reply: `None` unless
/// `data.blocks[0].id` is a string. The fact depends on the body's
/// characters alone.
pub uninterp spec fn spec_first_block_id(s: Seq<char>) -> Option<Seq<char>>;

/// Relies on serde_json::from_str, Value::get and Value::as_str: reads
/// `data.blocks[0].id`, whose value depends on the body alone.
#[verifier::external_body]
fn first_block_fact(s: &str) -> (r: Option<String>)
    ensures
        r is Some <==> spec_first_block_id(s@) is Some,
        r matches Option::Some(x) ==> (spec_first_block_id(s@) matches Option::Some(y) && x@ == y),
{
    let v: serde_json::Value = serde_json::from_str(s).ok()?;
    let id = v.get("data")?.get("blocks")?.get(0)?.get("id")?.as_str()?;
    Some(id.to_string())
}

/// Reads the first block id out of a `blocks` collection reply: exactly the
/// `data.blocks[0].id` string serde_json finds, `None` when the reply holds
/// no such string.
pub fn first_block_id(body: &str) -> (r: Option<String>)
    ensures
        r is Some <==> spec_first_block_id(body@) is Some,
        r matches Option::Some(x) ==> (spec_first_block_id(body@) matches Option::Some(y) && x@
            == y),
{
    first_block_fact(body)
}

/// Builds one candidate's probe result from the probe's timing and payload.
/// The probe succeeded exactly when a valid info payload arrived with a
/// last block time a signed 64-bit delta can express; its latency is the
/// round trip `finished - started`, its server time delta is
/// `now - lastBlockTime` with `now = finished`.
pub fn probe_result_from(started: u64, finished: u64, info: Option<u64>) -> (p: ProbeResult)
    requires
        started <= finished,
        finished <= i64::MAX as u64,
    ensures
        p.success == (info matches Option::Some(lbt) && lbt <= i64::MAX as u64),
        p.latency == finished - started,
        info matches Option::Some(lbt) ==> lbt <= i64::MAX as u64 ==> p.time_delta == finished
            - lbt,
        !p.success ==> p.time_delta == 0,
{
    let latency = finished - started;
    match info {
        Some(lbt) => {
            if lbt <= i64::MAX as u64 {
                ProbeResult {
                    success: true,
                    latency,
                    time_delta: finished as i64 - lbt as i64,
                }
            } else {
                ProbeResult { success: false, latency, time_delta: 0 }
            }
        },
        None => ProbeResult { success: false, latency, time_delta: 0 },
    }
}

/// The outcome one attempt contributes to the retry machine, given the
/// HTTP status and the body's classification: a server error status or a
/// malformed body is a transport-level outcome (retried), a logical error
/// propagates, data is delivered. The body rides along as the outcome's
/// payload.
pub fn outcome_of_class(status: u16, class: ResponseClass, body: String) -> (o: AttemptOutcome)
    ensures
        status >= 500 ==> (o matches AttemptOutcome::Transport(m) && m@ == body@),
        status < 500 && class == ResponseClass::Malformed ==> (o matches
            AttemptOutcome::Transport(m) && m@ == body@),
        status < 500 && class == ResponseClass::Logical ==> (o matches AttemptOutcome::Logical(m)
            && m@ == body@),
        status < 500 && class == ResponseClass::Data ==> (o matches AttemptOutcome::Data(d) && d@
            == body@),
{
    if status >= 500 {
        AttemptOutcome::Transport(body)
    } else {
        match class {
            ResponseClass::Malformed => AttemptOutcome::Transport(body),
            ResponseClass::Logical => AttemptOutcome::Logical(body),
            ResponseClass::Data => AttemptOutcome::Data(body),
        }
    }
}

/// Classifies a whole fetched response into the retry machine's outcome:
/// the body is inspected with serde_json and then judged by
/// `outcome_of_class` over its envelope facts.
pub fn outcome_of_response(status: u16, body: String) -> (o: AttemptOutcome)
    ensures
        ({
            let f = spec_envelope_facts(body@);
            let class = spec_classify(f.0, f.1, f.2);
            &&& status >= 500 ==> (o matches AttemptOutcome::Transport(m) && m@ == body@)
            &&& status < 500 && class == ResponseClass::Malformed ==> (o matches
                AttemptOutcome::Transport(m) && m@ == body@)
            &&& status < 500 && class == ResponseClass::Logical ==> (o matches
                AttemptOutcome::Logical(m) && m@ == body@)
            &&& status < 500 && class == ResponseClass::Data ==> (o matches AttemptOutcome::Data(d)
                && d@ == body@)
        }),
{
    let class = classify_response_body(body.as_str());
    outcome_of_class(status, class, body)
}

} // verus!
