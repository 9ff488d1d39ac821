use flute_cli_mcp::error::{Envelope, FluteError};
use flute_cli_mcp::json::{as_bool, as_str, get, Json};
use flute_cli_mcp::text::decimal_string;
use flute_cli_mcp::tools::{ack_envelope, flexible_u32, flute_err_to_result, truncate_4k};

fn text<'a>(v: &'a Json, key: &str) -> &'a str {
    as_str(get(v, key).unwrap_or_else(|| panic!("{key} missing"))).unwrap().as_str()
}

fn integer(v: &Json, key: &str) -> i64 {
    match get(v, key) {
        Some(Json::Int(i)) => *i,
        other => panic!("{key} is not an integer: {other:?}"),
    }
}

#[test]
fn truncate_4k_passes_short_input_through() {
    assert_eq!(truncate_4k("hello"), "hello");
    assert_eq!(truncate_4k(""), "");
}

#[test]
fn truncate_4k_caps_long_ascii_at_4096() {
    let big = "x".repeat(5000);
    assert_eq!(truncate_4k(&big).len(), 4096);
}

#[test]
fn truncate_4k_respects_utf8_boundary() {
    // 4095 ASCII bytes then a 2-byte char straddling index 4096:
    // must cut back to 4095 rather than split the char.
    let mut s = "a".repeat(4095);
    s.push('é');
    let out = truncate_4k(&s);
    assert_eq!(out.len(), 4095);
    assert!(s.is_char_boundary(out.len()));
}

#[test]
fn truncate_4k_keeps_exactly_4096_bytes() {
    let s = "y".repeat(4096);
    assert_eq!(truncate_4k(&s), s.as_str());
    let mut t = "a".repeat(4092);
    t.push('😀'); // four bytes ending exactly at 4096
    t.push('z');
    assert_eq!(truncate_4k(&t).len(), 4096);
}

#[test]
fn bad_output_payload_is_truncated_and_marked_error() {
    let err = FluteError::BadOutput {
        exit_code: 1,
        stdout: "Z".repeat(10_000),
        stderr: "E".repeat(10_000),
    };
    let result = flute_err_to_result(err);
    assert_eq!(result.is_error, Some(true));
    let p = &result.content;
    assert_eq!(text(p, "kind"), "bad_output");
    assert_eq!(integer(p, "exit_code"), 1);
    assert_eq!(text(p, "stdout").len(), 4096);
    assert_eq!(text(p, "stderr").len(), 4096);
}

#[test]
fn every_error_kind_has_its_payload() {
    let api = flute_err_to_result(FluteError::Api {
        status: 404,
        message: "nope".into(),
        correlation_id: Some("c-1".into()),
    });
    assert_eq!(text(&api.content, "kind"), "api");
    assert_eq!(integer(&api.content, "status"), 404);
    assert_eq!(text(&api.content, "message"), "nope");
    assert_eq!(text(&api.content, "correlation_id"), "c-1");

    let api_no_cid = flute_err_to_result(FluteError::Api { status: 500, message: "x".into(), correlation_id: None });
    assert!(matches!(get(&api_no_cid.content, "correlation_id"), Some(Json::Null)));

    let auth = flute_err_to_result(FluteError::Auth { message: "no credentials".into() });
    assert_eq!(text(&auth.content, "kind"), "auth");
    assert_eq!(text(&auth.content, "message"), "no credentials — run `flute auth login`");

    let spawn = flute_err_to_result(FluteError::Spawn("No such file".into()));
    assert_eq!(text(&spawn.content, "kind"), "spawn");
    assert_eq!(
        text(&spawn.content, "message"),
        "could not spawn flute — set FLUTE_BIN or install the CLI (No such file)"
    );

    let timeout = flute_err_to_result(FluteError::Timeout { secs: 30 });
    assert_eq!(text(&timeout.content, "kind"), "timeout");
    assert_eq!(text(&timeout.content, "message"), "flute timed out after 30s");

    for (err, kind) in [
        (FluteError::Transport { message: "m".into() }, "transport"),
        (FluteError::Decode { message: "m".into() }, "decode"),
        (FluteError::Client { message: "m".into() }, "client"),
    ] {
        let r = flute_err_to_result(err);
        assert_eq!(r.is_error, Some(true));
        assert_eq!(text(&r.content, "kind"), kind);
        assert_eq!(text(&r.content, "message"), "m");
        assert!(get(&r.content, "status").is_none());
    }
}

#[test]
fn short_bad_output_is_kept_whole() {
    let r = flute_err_to_result(FluteError::BadOutput { exit_code: 2, stdout: "not json".into(), stderr: "stderr text".into() });
    assert_eq!(text(&r.content, "stdout"), "not json");
    assert_eq!(text(&r.content, "stderr"), "stderr text");
    assert_eq!(integer(&r.content, "exit_code"), 2);
}

fn envelope(kind: &str, message: &str, status: Option<u16>, cid: Option<&str>) -> Option<Envelope> {
    Some(Envelope {
        kind: kind.into(),
        message: message.into(),
        status,
        correlation_id: cid.map(String::from),
    })
}

#[test]
fn parses_api_envelope_with_all_fields() {
    match FluteError::from_envelope(1, String::new(), String::new(), envelope("api", "validation failed", Some(422), Some("abc-123"))) {
        FluteError::Api { status, message, correlation_id } => {
            assert_eq!(status, 422);
            assert_eq!(message, "validation failed");
            assert_eq!(correlation_id.as_deref(), Some("abc-123"));
        }
        other => panic!("expected Api, got {other:?}"),
    }
}

#[test]
fn parses_auth_envelope_without_status() {
    assert!(matches!(
        FluteError::from_envelope(1, String::new(), String::new(), envelope("auth", "no credentials", None, None)),
        FluteError::Auth { message } if message == "no credentials"
    ));
    assert!(matches!(
        FluteError::from_envelope(1, String::new(), String::new(), envelope("api", "x", None, None)),
        FluteError::Api { status: 0, .. }
    ));
}

#[test]
fn unparseable_stdout_becomes_bad_output() {
    match FluteError::from_envelope(2, "not json".into(), "stderr text".into(), None) {
        FluteError::BadOutput { exit_code, stdout, stderr } => {
            assert_eq!(exit_code, 2);
            assert_eq!(stdout, "not json");
            assert_eq!(stderr, "stderr text");
        }
        other => panic!("expected BadOutput, got {other:?}"),
    }
}

#[test]
fn unknown_kind_becomes_bad_output() {
    assert!(matches!(
        FluteError::from_envelope(1, "{}".into(), String::new(), envelope("martian", "x", None, None)),
        FluteError::BadOutput { exit_code: 1, .. }
    ));
    for (kind, ok) in [("transport", true), ("decode", true), ("client", true), ("API", false)] {
        let e = FluteError::from_envelope(1, String::new(), String::new(), envelope(kind, "x", None, None));
        assert_eq!(!matches!(e, FluteError::BadOutput { .. }), ok, "{kind}");
    }
}

#[test]
fn ack_envelope_shape() {
    let data = Json::Object(vec![("id".into(), Json::Str("c1".into())), ("deleted".into(), Json::Bool(true))]);
    let v = ack_envelope("customer_delete", data, "sandbox");
    assert_eq!(text(&v, "object"), "customer_delete");
    let d = get(&v, "data").unwrap();
    assert_eq!(text(d, "id"), "c1");
    assert_eq!(as_bool(get(d, "deleted").unwrap()), Some(true));
    assert_eq!(text(get(&v, "meta").unwrap(), "environment"), "sandbox");
}

#[test]
fn flexible_u32_reads_numeric_strings() {
    assert_eq!(flexible_u32("100"), Some(100));
    assert_eq!(flexible_u32(" 2 "), Some(2));
    assert_eq!(flexible_u32("+12"), Some(12));
    assert_eq!(flexible_u32("4294967295"), Some(u32::MAX));
    assert_eq!(flexible_u32("4294967296"), None);
    assert_eq!(flexible_u32("abc"), None);
    assert_eq!(flexible_u32(""), None);
    assert_eq!(flexible_u32("-1"), None);
    assert_eq!(flexible_u32("1 2"), None);
}

#[test]
fn every_error_payload_starts_with_a_documented_kind() {
    let errors = vec![
        FluteError::Api { status: 502, message: "m".into(), correlation_id: None },
        FluteError::Transport { message: "m".into() },
        FluteError::Auth { message: "m".into() },
        FluteError::Decode { message: "m".into() },
        FluteError::Client { message: "m".into() },
        FluteError::Spawn("m".into()),
        FluteError::Timeout { secs: 5 },
        FluteError::BadOutput { exit_code: 3, stdout: "o".into(), stderr: "e".into() },
    ];
    let documented =
        ["api", "transport", "auth", "decode", "client", "spawn", "timeout", "bad_output"];
    for (err, kind) in errors.into_iter().zip(documented) {
        let r = flute_err_to_result(err);
        assert_eq!(r.is_error, Some(true));
        match &r.content {
            Json::Object(members) => {
                assert_eq!(members[0].0, "kind");
                assert!(matches!(&members[0].1, Json::Str(k) if k == kind));
                assert!(members.iter().all(|(k, _)| k != "object" && k != "data"));
            }
            other => panic!("error payload is not an object: {other:?}"),
        }
    }
}

#[test]
fn printed_numbers_are_read_back() {
    for n in [0u32, 7, 10, 100, 65_535, 4_294_967_295] {
        assert_eq!(flexible_u32(&decimal_string(n as u64)), Some(n));
    }
    assert_eq!(flexible_u32("4294967296"), None);
    assert_eq!(flexible_u32("+12"), Some(12));
    assert_eq!(flexible_u32("-1"), None);
    assert_eq!(flexible_u32(""), None);
    assert_eq!(flexible_u32(" 42\n"), Some(42));
}
