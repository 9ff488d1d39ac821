//! The tools' shared parameters and the answers the server builds itself.
use vstd::prelude::*;
use vstd::string::StringSliceAdditionalSpecFns;
use vstd::utf8::*;

use crate::error::{envelope_error, Envelope, FluteError};
use crate::json::{
    json_get, json_text, json_view, lemma_members_view_index, member_lookup, members_view, Json, JsonV,
};
use crate::text::{
    decimal, decimal_string, is_white_space, lemma_decimal_trimmed, lemma_parse_decimal_roundtrip,
    lemma_trimmed_padded_decimal, parse_bounded, parse_unsigned, trim, trimmed, unsigned_digits,
    all_ascii_digits, is_ascii_digit,
};

pub mod ach;
pub mod address;
pub mod customers;
pub mod devices;
pub mod keys;
pub mod pos;
pub mod settlements;
pub mod subscriptions;
pub mod terminals;
pub mod tokens;
pub mod transactions;
pub mod util;

verus! {

broadcast use {encode_utf8_valid_utf8, encode_utf8_decode_utf8, is_char_boundary_start_end_of_seq};

/// The parameters of a tool that takes none.
#[derive(Debug, Default)]
pub struct Empty {}

/// A bare resource id, used by the many `get`/`status`/positional tools.
#[derive(Debug, Default)]
pub struct Id {
    /// The resource id.
    pub id: String,
}

/// What a tool answers when the library builds the answer itself: the JSON
/// content, marked as an error or as a success.
#[derive(Debug)]
pub struct ToolResult {
    pub is_error: Option<bool>,
    pub content: Json,
}

/// How a numeric parameter sent as a string is read: trimmed, then as an
/// unsigned integer that fits in `u32` (an optional `+`, then digits only).
pub open spec fn flexible_u32_value(text: Seq<char>) -> Option<u32> {
    match parse_unsigned(trimmed(text), u32::MAX as nat) {
        Some(n) => Some(n as u32),
        None => None,
    }
}

/// Reads an integer parameter that a client sent as a string: MCP clients
/// often quote integers, so `"100"` and `" 100 "` are read as 100, while a
/// string that is not a number is refused (`None`).
pub fn flexible_u32(text: &str) -> (res: Option<u32>)
    ensures
        res == flexible_u32_value(text@),
{
    let t = trim(text);
    match parse_bounded(t.as_str(), 0xffff_ffffu64) {
        Some(n) => Some(n as u32),
        None => None,
    }
}

/// A number that the server itself would print as an argument (plain
/// decimal) is read back as that number when a client sends it as a string.
pub proof fn lemma_flexible_u32_reads_decimal(n: u32)
    ensures
        flexible_u32_value(decimal(n as nat)) == Some(n),
{
    lemma_decimal_trimmed(n as nat);
    lemma_parse_decimal_roundtrip(n as nat, u32::MAX as nat);
}

/// A number sent as a string is read as that number also when whitespace
/// surrounds it, as clients often send it.
pub proof fn lemma_flexible_u32_trims(n: u32, before: Seq<char>, after: Seq<char>)
    requires
        forall|i: int| 0 <= i < before.len() ==> is_white_space(#[trigger] before[i]),
        forall|i: int| 0 <= i < after.len() ==> is_white_space(#[trigger] after[i]),
    ensures
        flexible_u32_value(before + decimal(n as nat) + after) == Some(n),
{
    lemma_trimmed_padded_decimal(n as nat, before, after);
    lemma_parse_decimal_roundtrip(n as nat, u32::MAX as nat);
}

/// A string that, once trimmed, holds anything but an optional leading `+`
/// and digits is refused.
pub proof fn lemma_flexible_u32_refuses(text: Seq<char>, i: int)
    requires
        0 <= i < trimmed(text).len(),
        !is_ascii_digit(trimmed(text)[i]),
        !(i == 0 && trimmed(text)[0] == '+'),
    ensures
        flexible_u32_value(text) is None,
{
    let t = trimmed(text);
    let d = unsigned_digits(t);
    if t[0] == '+' {
        assert(d[i - 1] == t[i]);
    } else {
        assert(d[i] == t[i]);
    }
    assert(!all_ascii_digits(d));
}

/// The most raw CLI output an error payload carries, in bytes.
pub const MAX_RAW_OUTPUT: usize = 4096;

/// The largest character boundary of `bytes` at or below `i`.
pub open spec fn floor_boundary(bytes: Seq<u8>, i: int) -> int
    decreases i,
{
    if i <= 0 {
        0
    } else if is_char_boundary(bytes, i) {
        i
    } else {
        floor_boundary(bytes, i - 1)
    }
}

/// Where raw output is cut: the largest character boundary no further than
/// 4096 bytes in (the end, for shorter output).
pub open spec fn cut_4k(bytes: Seq<u8>) -> int {
    floor_boundary(bytes, if bytes.len() < 4096 { bytes.len() as int } else { 4096 })
}

/// The characters left of `s` once its UTF-8 encoding is cut at `cut_4k`.
pub open spec fn truncated_4k(s: Seq<char>) -> Seq<char> {
    decode_utf8(encode_utf8(s).take(cut_4k(encode_utf8(s))))
}

proof fn lemma_floor_boundary(bytes: Seq<u8>, i: int)
    requires
        valid_utf8(bytes),
        0 <= i <= bytes.len(),
    ensures
        0 <= floor_boundary(bytes, i) <= i,
        is_char_boundary(bytes, floor_boundary(bytes, i)),
        forall|j: int| floor_boundary(bytes, i) < j <= i ==> !is_char_boundary(bytes, j),
    decreases i,
{
    if i > 0 && !is_char_boundary(bytes, i) {
        lemma_floor_boundary(bytes, i - 1);
    }
}

/// What a `bad_output` payload carries of the raw output is a prefix of it
/// that takes at most 4096 bytes in UTF-8, and is the whole output when that
/// fits.
pub proof fn lemma_truncated_4k(s: Seq<char>)
    ensures
        encode_utf8(truncated_4k(s)).len() <= 4096,
        truncated_4k(s) == s.take(truncated_4k(s).len() as int),
        encode_utf8(s).len() <= 4096 ==> truncated_4k(s) == s,
{
    let b = encode_utf8(s);
    encode_utf8_valid_utf8(s);
    encode_utf8_decode_utf8(s);
    is_char_boundary_start_end_of_seq(b);
    let top: int = if b.len() < 4096 { b.len() as int } else { 4096 };
    lemma_floor_boundary(b, top);
    let c = cut_4k(b);
    assert(b.take(c) =~= b.subrange(0, c));
    valid_utf8_split(b, c);
    decode_utf8_encode_utf8(b.subrange(0, c));
    decode_utf8_split(b, c);
    let t = truncated_4k(s);
    assert(s =~= t + decode_utf8(b.subrange(c, b.len() as int)));
    assert(t =~= s.take(t.len() as int));
    if b.len() <= 4096 {
        assert(c == b.len());
        assert(b.subrange(0, c) =~= b);
    }
}

/// Cuts raw CLI output to at most 4 KiB on a UTF-8 character boundary, so a
/// large or sensitive failure body is not echoed back whole. The result is the
/// longest prefix of `s` that fits in 4096 bytes without splitting a character.
pub fn truncate_4k(s: &str) -> (res: &str)
    ensures
        res.spec_bytes() == s.spec_bytes().take(cut_4k(s.spec_bytes())),
        res@ == truncated_4k(s@),
        res@ == s@.take(res@.len() as int),
        res.spec_bytes().len() <= 4096,
        s.spec_bytes().len() <= 4096 ==> res@ == s@,
        forall|j: int|
            res.spec_bytes().len() < j <= s.spec_bytes().len() && j <= 4096 ==> !is_char_boundary(
                s.spec_bytes(),
                j,
            ),
{
    let ghost bytes = s.spec_bytes();
    let len = s.as_bytes().len();
    let top: usize = if len < MAX_RAW_OUTPUT {
        len
    } else {
        MAX_RAW_OUTPUT
    };
    let mut n = top;
    proof {
        lemma_floor_boundary(bytes, top as int);
    }
    while !s.is_char_boundary(n)
        invariant
            n <= top <= bytes.len(),
            top as int == (if bytes.len() < 4096 { bytes.len() as int } else { 4096 }),
            bytes == s.spec_bytes(),
            valid_utf8(bytes),
            floor_boundary(bytes, top as int) == floor_boundary(bytes, n as int),
        decreases n,
    {
        n = n - 1;
    }
    let (head, _tail) = s.split_at(n);
    proof {
        assert(floor_boundary(bytes, n as int) == n);
        assert(top as int == (if bytes.len() < 4096 { bytes.len() as int } else { 4096 }));
        assert(cut_4k(bytes) == n);
        assert(head.spec_bytes() =~= bytes.take(n as int));
        decode_utf8_split(bytes, n as int);
        assert(bytes.subrange(0, n as int) =~= bytes.take(n as int));
        assert(decode_utf8(bytes) == s@);
        assert(decode_utf8(head.spec_bytes()) == head@);
        assert(s@ =~= head@ + decode_utf8(bytes.subrange(n as int, bytes.len() as int)));
        assert(head@ =~= s@.take(head@.len() as int));
        if bytes.len() <= 4096 {
            assert(bytes.take(n as int) =~= bytes);
        }
    }
    head
}

/// The `kind` an error reports.
pub open spec fn error_kind(e: FluteError) -> Seq<char> {
    match e {
        FluteError::Api { .. } => "api"@,
        FluteError::Transport { .. } => "transport"@,
        FluteError::Auth { .. } => "auth"@,
        FluteError::Decode { .. } => "decode"@,
        FluteError::Client { .. } => "client"@,
        FluteError::Spawn(_) => "spawn"@,
        FluteError::Timeout { .. } => "timeout"@,
        FluteError::BadOutput { .. } => "bad_output"@,
    }
}

/// The flat `{kind, message, status?, correlation_id?}` payload an error is
/// reported with (a `bad_output` error reports its exit code and its raw
/// output cut to 4 KiB instead of a message).
pub open spec fn error_payload(e: FluteError) -> JsonV {
    let kind = ("kind"@, JsonV::Str(error_kind(e)));
    match e {
        FluteError::Api { status, message, correlation_id } => JsonV::Object(
            seq![
                kind,
                ("status"@, JsonV::Int(status as int)),
                ("message"@, JsonV::Str(message@)),
                ("correlation_id"@, match correlation_id {
                    Some(c) => JsonV::Str(c@),
                    None => JsonV::Null,
                }),
            ],
        ),
        FluteError::Transport { message } => JsonV::Object(
            seq![kind, ("message"@, JsonV::Str(message@))],
        ),
        FluteError::Auth { message } => JsonV::Object(
            seq![kind, ("message"@, JsonV::Str(message@ + " — run `flute auth login`"@))],
        ),
        FluteError::Decode { message } => JsonV::Object(
            seq![kind, ("message"@, JsonV::Str(message@))],
        ),
        FluteError::Client { message } => JsonV::Object(
            seq![kind, ("message"@, JsonV::Str(message@))],
        ),
        FluteError::Spawn(msg) => JsonV::Object(
            seq![
                kind,
                ("message"@, JsonV::Str(
                    "could not spawn flute — set FLUTE_BIN or install the CLI ("@ + msg@ + ")"@,
                )),
            ],
        ),
        FluteError::Timeout { secs } => JsonV::Object(
            seq![
                kind,
                ("message"@, JsonV::Str(
                    "flute timed out after "@ + decimal(secs as nat) + "s"@,
                )),
            ],
        ),
        FluteError::BadOutput { exit_code, stdout, stderr } => JsonV::Object(
            seq![
                kind,
                ("exit_code"@, JsonV::Int(exit_code as int)),
                ("stdout"@, JsonV::Str(truncated_4k(stdout@))),
                ("stderr"@, JsonV::Str(truncated_4k(stderr@))),
            ],
        ),
    }
}

/// The kinds an error answer can report: `api`, `transport`, `auth`,
/// `decode`, `client`, `spawn`, `timeout` and `bad_output`.
pub open spec fn documented_kind(k: Seq<char>) -> bool {
    k == "api"@ || k == "transport"@ || k == "auth"@ || k == "decode"@ || k == "client"@ || k
        == "spawn"@ || k == "timeout"@ || k == "bad_output"@
}

/// Every error answer is a flat object whose first member is its `kind`, and
/// that kind is one of the eight the server documents; it is never wrapped
/// in an `{object, data, meta}` envelope.
pub proof fn lemma_error_payload_kind(e: FluteError)
    ensures
        error_payload(e) matches JsonV::Object(m) && m.len() > 0 && m[0].0 == "kind"@ && m[0].1
            == JsonV::Str(error_kind(e)) && documented_kind(error_kind(e)),
        forall|i: int|
            #![trigger error_payload(e)->Object_0[i]]
            0 <= i < error_payload(e)->Object_0.len() ==> error_payload(e)->Object_0[i].0 != "object"@
                && error_payload(e)->Object_0[i].0 != "data"@,
{
    reveal_strlit("kind");
    reveal_strlit("object");
    reveal_strlit("data");
    reveal_strlit("status");
    reveal_strlit("message");
    reveal_strlit("correlation_id");
    reveal_strlit("exit_code");
    reveal_strlit("stdout");
    reveal_strlit("stderr");
    let m = error_payload(e)->Object_0;
    assert forall|i: int| 0 <= i < m.len() implies m[i].0 != "object"@ && m[i].0 != "data"@ by {
        assert(m[i].0.len() != 6 || m[i].0[0] != 'o');
        assert(m[i].0.len() != 4 || m[i].0[0] != 'd');
    }
}

/// The kinds the CLI's own error envelope can carry.
pub open spec fn envelope_kind(k: Seq<char>) -> bool {
    k == "api"@ || k == "transport"@ || k == "auth"@ || k == "decode"@ || k == "client"@
}

/// A failed call keeps the kind its envelope names when that is one of the
/// CLI's documented kinds; without an envelope, or with any other kind, it is
/// `bad_output` carrying the exit code and the raw output unchanged.
pub proof fn lemma_envelope_kind(
    exit_code: i32,
    stdout: String,
    stderr: String,
    envelope: Option<Envelope>,
)
    ensures
        envelope matches Some(env) ==> (envelope_kind(env.kind@) ==> error_kind(
            envelope_error(exit_code, stdout, stderr, envelope),
        ) == env.kind@),
        envelope matches Some(env) ==> (!envelope_kind(env.kind@) ==> envelope_error(
            exit_code,
            stdout,
            stderr,
            envelope,
        ) == (FluteError::BadOutput { exit_code, stdout, stderr })),
        envelope is None ==> envelope_error(exit_code, stdout, stderr, envelope) == (
        FluteError::BadOutput { exit_code, stdout, stderr }),
{
}

/// What each error payload reports beside its kind: an API error its status,
/// message and correlation id (`null` when absent); an authentication error
/// the CLI's message followed by the advice to log in; a spawn error the
/// reason it could not start; a timeout the seconds waited; the other errors
/// their message unchanged; and `bad_output` the exit code and both streams
/// cut to 4 KiB.
pub proof fn lemma_error_payload_fields(e: FluteError)
    ensures
        (e matches FluteError::Api { status, message, correlation_id } ==> {
            &&& json_get(error_payload(e), "status"@) == Some(JsonV::Int(status as int))
            &&& json_get(error_payload(e), "message"@) == Some(JsonV::Str(message@))
            &&& json_get(error_payload(e), "correlation_id"@) == Some(
                match correlation_id {
                    Some(c) => JsonV::Str(c@),
                    None => JsonV::Null,
                },
            )
        }),
        (e matches FluteError::Auth { message } ==> json_get(error_payload(e), "message"@) == Some(
            JsonV::Str(message@ + " — run `flute auth login`"@),
        )),
        (e matches FluteError::Transport { message } ==> json_get(error_payload(e), "message"@)
            == Some(JsonV::Str(message@))),
        (e matches FluteError::Decode { message } ==> json_get(error_payload(e), "message"@) == Some(
            JsonV::Str(message@),
        )),
        (e matches FluteError::Client { message } ==> json_get(error_payload(e), "message"@) == Some(
            JsonV::Str(message@),
        )),
        (e matches FluteError::Spawn(msg) ==> json_get(error_payload(e), "message"@) == Some(
            JsonV::Str("could not spawn flute — set FLUTE_BIN or install the CLI ("@ + msg@ + ")"@),
        )),
        (e matches FluteError::Timeout { secs } ==> json_get(error_payload(e), "message"@) == Some(
            JsonV::Str("flute timed out after "@ + decimal(secs as nat) + "s"@),
        )),
        (e matches FluteError::BadOutput { exit_code, stdout, stderr } ==> {
            &&& json_get(error_payload(e), "exit_code"@) == Some(JsonV::Int(exit_code as int))
            &&& json_get(error_payload(e), "stdout"@) == Some(JsonV::Str(truncated_4k(stdout@)))
            &&& json_get(error_payload(e), "stderr"@) == Some(JsonV::Str(truncated_4k(stderr@)))
        }),
{
    reveal_strlit("kind");
    reveal_strlit("status");
    reveal_strlit("message");
    reveal_strlit("correlation_id");
    reveal_strlit("exit_code");
    reveal_strlit("stdout");
    reveal_strlit("stderr");
    assert("kind"@.len() == 4);
    assert("status"@.len() == 6);
    assert("message"@.len() == 7);
    assert("correlation_id"@.len() == 14);
    assert("exit_code"@.len() == 9);
    assert("stdout"@.len() == 6);
    assert("stderr"@.len() == 6);
    assert("status"@[2] == 'a');
    assert("stdout"@[2] == 'd');
    assert("stdout"@[3] == 'o');
    assert("stderr"@[3] == 'e');
    assert("status"@[3] == 't');
    reveal_with_fuel(member_lookup, 5);
}

fn kind_member(e: &FluteError) -> (res: (String, Json))
    ensures
        res.0@ == "kind"@,
        res.1@ == JsonV::Str(error_kind(*e)),
{
    let k = match e {
        FluteError::Api { .. } => "api",
        FluteError::Transport { .. } => "transport",
        FluteError::Auth { .. } => "auth",
        FluteError::Decode { .. } => "decode",
        FluteError::Client { .. } => "client",
        FluteError::Spawn(_) => "spawn",
        FluteError::Timeout { .. } => "timeout",
        FluteError::BadOutput { .. } => "bad_output",
    };
    (String::from_str("kind"), json_text(k))
}

/// A JSON object with the given members, in order.
pub fn json_object(members: Vec<(String, Json)>) -> (res: Json)
    ensures
        res@ == JsonV::Object(members_view(members@)),
        members_view(members@).len() == members@.len(),
        forall|i: int|
            0 <= i < members@.len() ==> #[trigger] members_view(members@)[i] == (
                members@[i].0@,
                members@[i].1@,
            ),
{
    proof {
        lemma_members_view_index(members@);
    }
    Json::Object(members)
}

fn text_member(name: &str, value: String) -> (res: (String, Json))
    ensures
        res.0@ == name@,
        res.1@ == JsonV::Str(value@),
{
    (String::from_str(name), Json::Str(value))
}

/// The error payload for `err`.
pub fn error_payload_of(err: FluteError) -> (res: Json)
    ensures
        res@ == error_payload(err),
{
    let ghost e = err;
    let kind = kind_member(&err);
    let mut members: Vec<(String, Json)> = Vec::new();
    members.push(kind);
    match err {
        FluteError::Api { status, message, correlation_id } => {
            members.push((String::from_str("status"), Json::Int(status as i64)));
            members.push(text_member("message", message));
            let cid = match correlation_id {
                Some(c) => Json::Str(c),
                None => Json::Null,
            };
            members.push((String::from_str("correlation_id"), cid));
        },
        FluteError::Transport { message } => {
            members.push(text_member("message", message));
        },
        FluteError::Auth { message } => {
            let mut m = message;
            m.append(" — run `flute auth login`");
            members.push(text_member("message", m));
        },
        FluteError::Decode { message } => {
            members.push(text_member("message", message));
        },
        FluteError::Client { message } => {
            members.push(text_member("message", message));
        },
        FluteError::Spawn(msg) => {
            let mut m = String::from_str("could not spawn flute — set FLUTE_BIN or install the CLI (");
            m.append(msg.as_str());
            m.append(")");
            members.push(text_member("message", m));
        },
        FluteError::Timeout { secs } => {
            let mut m = String::from_str("flute timed out after ");
            let d = decimal_string(secs);
            m.append(d.as_str());
            m.append("s");
            members.push(text_member("message", m));
        },
        FluteError::BadOutput { exit_code, stdout, stderr } => {
            members.push((String::from_str("exit_code"), Json::Int(exit_code as i64)));
            members.push(text_member("stdout", String::from_str(truncate_4k(stdout.as_str()))));
            members.push(text_member("stderr", String::from_str(truncate_4k(stderr.as_str()))));
        },
    }
    let res = json_object(members);
    proof {
        assert(members_view(members@) =~= error_payload(e)->Object_0);
    }
    res
}

/// The error answer for `err`: its payload, marked as an error.
pub fn flute_err_to_result(err: FluteError) -> (res: ToolResult)
    ensures
        res.is_error == Some(true),
        res.content@ == error_payload(err),
{
    ToolResult { is_error: Some(true), content: error_payload_of(err) }
}

/// The `{object, data, meta: {environment}}` envelope the CLI answers with.
pub open spec fn ack_envelope_view(object: Seq<char>, data: JsonV, environment: Seq<char>) -> JsonV {
    JsonV::Object(
        seq![
            ("object"@, JsonV::Str(object)),
            ("data"@, data),
            ("meta"@, JsonV::Object(seq![("environment"@, JsonV::Str(environment))])),
        ],
    )
}

/// Builds a success envelope for an operation whose CLI command answers with an
/// empty body (delete, remove-method, revoke), in the same `{object, data, meta}`
/// shape the other tools return.
pub fn ack_envelope(object: &str, data: Json, environment: &str) -> (res: Json)
    ensures
        res@ == ack_envelope_view(object@, data@, environment@),
{
    let ghost dv = data@;
    let mut meta: Vec<(String, Json)> = Vec::new();
    meta.push(text_member("environment", String::from_str(environment)));
    let meta = json_object(meta);
    let mut members: Vec<(String, Json)> = Vec::new();
    members.push(text_member("object", String::from_str(object)));
    members.push((String::from_str("data"), data));
    members.push((String::from_str("meta"), meta));
    let res = json_object(members);
    proof {
        assert(members_view(members@) =~= ack_envelope_view(object@, dv, environment@)->Object_0);
    }
    res
}

} // verus!
