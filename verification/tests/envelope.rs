use kitt_protocol::kinds;
use kitt_protocol::envelope::check_frame_size;
use kitt_protocol::{AuthenticatedFrame, Envelope, MAX_FRAME_BYTES, PROTOCOL_VERSION};
use serde_json::Value;

const ASK_REQUEST_FRAME: &str = r#"{
  "token": "local-dev-token",
  "envelope": {
    "version": 1,
    "id": "req-ask-001",
    "kind": "assistant.ask.request",
    "payload": {
      "text": "Olá",
      "locale": "pt-BR",
      "show_hud": true
    }
  }
}"#;

const ASK_RESPONSE_ENVELOPE: &str = r#"{
  "version": 1,
  "id": "res-ask-001",
  "kind": "assistant.ask.response",
  "correlation_id": "req-ask-001",
  "payload": {
    "text": "Olá!"
  }
}"#;

#[test]
fn envelope_round_trip_and_correlation() {
    let request = Envelope::new(
        kinds::ASSISTANT_ASK_REQUEST.to_string(),
        r#"{"text":"Olá","locale":"pt-BR","show_hud":true}"#.to_string(),
    );
    let response = Envelope::response(
        kinds::ASSISTANT_ASK_RESPONSE.to_string(),
        request.id.clone(),
        r#"{"text":"Olá!"}"#.to_string(),
    );
    assert_eq!(
        response.correlation_id.as_deref(),
        Some(request.id.as_str())
    );
    response.validate().unwrap();
}

#[test]
fn rejects_unknown_version() {
    let mut env = Envelope::new(kinds::SYSTEM_PING_REQUEST.to_string(), "{}".to_string());
    env.version = 99;
    assert!(env.validate().is_err());
}

fn envelope_from_value(v: &Value) -> Envelope {
    Envelope {
        version: v["version"].as_u64().unwrap() as u16,
        id: v["id"].as_str().unwrap().to_string(),
        kind: v["kind"].as_str().unwrap().to_string(),
        correlation_id: v.get("correlation_id").and_then(|c| c.as_str()).map(|c| c.to_string()),
        payload: v.get("payload").map(|p| p.to_string()).unwrap_or_else(|| "null".to_string()),
    }
}

fn frame_from_value(v: &Value) -> AuthenticatedFrame {
    AuthenticatedFrame {
        token: v["token"].as_str().unwrap().to_string(),
        envelope: envelope_from_value(&v["envelope"]),
    }
}

#[test]
fn canonical_fixture_parses() {
    let data = ASK_REQUEST_FRAME.as_bytes();
    let parsed: Value = serde_json::from_slice(data).unwrap();
    let frame = AuthenticatedFrame::decode(data, Ok(frame_from_value(&parsed))).ok().unwrap();
    assert_eq!(frame.envelope.kind, kinds::ASSISTANT_ASK_REQUEST);
    assert_eq!(frame.envelope.id, "req-ask-001");

    let data = ASK_RESPONSE_ENVELOPE.as_bytes();
    let parsed: Value = serde_json::from_slice(data).unwrap();
    let response = Envelope::decode(data, Ok(envelope_from_value(&parsed))).unwrap();
    assert_eq!(response.correlation_id.as_deref(), Some("req-ask-001"));
}

fn envelope(version: u16, id: &str, kind: &str, correlation_id: Option<&str>) -> Envelope {
    Envelope {
        version,
        id: id.to_string(),
        kind: kind.to_string(),
        correlation_id: correlation_id.map(|c| c.to_string()),
        payload: "null".to_string(),
    }
}

#[test]
fn validate_reports_the_version_in_decimal() {
    let env = envelope(99, "a", "b", None);
    assert_eq!(
        env.validate(),
        Err("unsupported protocol version 99; expected 1".to_string())
    );
    let env = envelope(65535, "a", "b", None);
    assert_eq!(
        env.validate(),
        Err("unsupported protocol version 65535; expected 1".to_string())
    );
    let env = envelope(0, "a", "b", None);
    assert_eq!(
        env.validate(),
        Err("unsupported protocol version 0; expected 1".to_string())
    );
}

#[test]
fn validate_checks_fields_in_order() {
    assert_eq!(
        envelope(1, " \t", "", None).validate(),
        Err("envelope id is empty".to_string())
    );
    assert_eq!(
        envelope(1, "id", "\n", None).validate(),
        Err("envelope kind is empty".to_string())
    );
    assert_eq!(
        envelope(1, "id", "kind", Some("\u{3000}")).validate(),
        Err("correlation_id cannot be empty".to_string())
    );
    assert_eq!(envelope(1, "id", "kind", Some(" x ")).validate(), Ok(()));
    assert_eq!(envelope(1, "id", "kind", None).validate(), Ok(()));
    assert_eq!(
        envelope(1, "\u{a0}\u{2028}", "kind", None).validate(),
        Err("envelope id is empty".to_string())
    );
}

#[test]
fn new_envelopes_carry_a_fresh_v4_uuid() {
    let a = Envelope::new("k".to_string(), "[1,2]".to_string());
    let b = Envelope::new("k".to_string(), "[1,2]".to_string());
    assert_eq!(a.version, PROTOCOL_VERSION);
    assert_eq!(a.id.len(), 36);
    let chars: Vec<char> = a.id.chars().collect();
    assert_eq!(chars[8], '-');
    assert_eq!(chars[13], '-');
    assert_eq!(chars[14], '4');
    assert!(matches!(chars[19], '8' | '9' | 'a' | 'b'));
    assert_ne!(a.id, b.id);
    assert_eq!(a.correlation_id, None);
    assert_eq!(a.payload, "[1,2]");
    assert_eq!(a.validate(), Ok(()));
}

#[test]
fn new_envelope_with_blank_kind_does_not_validate() {
    let env = Envelope::new(" ".to_string(), "{}".to_string());
    assert_eq!(env.validate(), Err("envelope kind is empty".to_string()));
}

#[test]
fn error_envelopes_quote_code_and_message() {
    let env = Envelope::error(Some("req-1"), "bad_request", "He said \"no\"");
    assert_eq!(env.kind, kinds::SYSTEM_ERROR);
    assert_eq!(env.correlation_id.as_deref(), Some("req-1"));
    assert_eq!(
        env.payload,
        r#"{"code":"bad_request","message":"He said \"no\""}"#
    );
    assert_eq!(env.validate(), Ok(()));

    let env = Envelope::error(None, "", "a\\b\n\u{1}\u{7f}é");
    assert_eq!(env.correlation_id, None);
    assert_eq!(env.payload, "{\"code\":\"\",\"message\":\"a\\\\b\\n\\u0001\u{7f}é\"}");
    assert_eq!(env.validate(), Ok(()));
    let value: Value = serde_json::from_str(&env.payload).unwrap();
    assert_eq!(value["message"], "a\\b\n\u{1}\u{7f}é");

    let env = Envelope::error(Some(""), "x", "y");
    assert_eq!(
        env.validate(),
        Err("correlation_id cannot be empty".to_string())
    );
}

#[test]
fn decode_refuses_oversized_frames_first() {
    let data = vec![b'x'; MAX_FRAME_BYTES + 1];
    let valid = envelope(1, "id", "kind", None);
    assert_eq!(
        Envelope::decode(&data, Ok(valid.clone())),
        Err("frame_too_large".to_string())
    );
    assert_eq!(check_frame_size(&data), Err("frame_too_large".to_string()));
    let frame = AuthenticatedFrame { token: "t".to_string(), envelope: valid.clone() };
    assert_eq!(
        AuthenticatedFrame::decode(&data, Ok(frame)).err(),
        Some("frame_too_large".to_string())
    );
    let data = vec![b' '; MAX_FRAME_BYTES];
    assert_eq!(check_frame_size(&data), Ok(()));
    assert_eq!(Envelope::decode(&data, Ok(valid.clone())), Ok(valid));
}

#[test]
fn decode_passes_parse_failures_on() {
    assert_eq!(
        Envelope::decode(b"{", Err("EOF while parsing an object".to_string())),
        Err("EOF while parsing an object".to_string())
    );
    assert_eq!(
        AuthenticatedFrame::decode(b"{", Err("bad".to_string())).err(),
        Some("bad".to_string())
    );
}

#[test]
fn decode_validates_after_parsing() {
    assert_eq!(
        Envelope::decode(b"{}", Ok(envelope(2, "a", "b", None))),
        Err("unsupported protocol version 2; expected 1".to_string())
    );
    assert_eq!(
        Envelope::decode(b"{}", Ok(envelope(1, "a", "  ", None))),
        Err("envelope kind is empty".to_string())
    );
}

#[test]
fn frames_need_a_token_and_a_valid_envelope() {
    let env = envelope(1, "id", "kind", None);
    assert_eq!(
        AuthenticatedFrame::new("  ".to_string(), env.clone()).err(),
        Some("authentication token is empty".to_string())
    );
    assert_eq!(
        AuthenticatedFrame::new("t".to_string(), envelope(3, "id", "kind", None)).err(),
        Some("unsupported protocol version 3; expected 1".to_string())
    );
    let frame = AuthenticatedFrame::new("t".to_string(), env.clone()).ok().unwrap();
    assert_eq!(frame.token, "t");
    assert!(frame.envelope == env);
}

#[test]
fn frame_decode_checks_token_then_envelope() {
    let blank = AuthenticatedFrame { token: " ".to_string(), envelope: envelope(7, "", "", None) };
    assert_eq!(
        AuthenticatedFrame::decode(b"{}", Ok(blank)).err(),
        Some("authentication token is empty".to_string())
    );
    let bad = AuthenticatedFrame { token: "t".to_string(), envelope: envelope(1, "", "b", None) };
    assert_eq!(
        AuthenticatedFrame::decode(b"{}", Ok(bad)).err(),
        Some("envelope id is empty".to_string())
    );
    let good = AuthenticatedFrame { token: "t".to_string(), envelope: envelope(1, "a", "b", None) };
    let decoded = AuthenticatedFrame::decode(b"{}", Ok(good.clone())).ok().unwrap();
    assert!(decoded == good);
}
