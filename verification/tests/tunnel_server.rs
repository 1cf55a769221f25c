use portal::http::UtcTime;
use portal::json::{JsonNumber, JsonValue};
use portal::protocol::{AuthMessage, McpResponseMessage, PingMessage, TunnelMessage};
use portal::server::pending::PendingRequests;
use portal::error::TunnelError;
use portal::tokens::{hash_token, key_from_bytes, status_url, token_from_bytes, token_output, validate_token};
use portal::tunnel_server::mcp_handler::{answer, device_status, forwarded_request, parse_error_reply, posted_request_id,
    DeviceOutcome};
use portal::tunnel_server::offline::{create_offline_response, create_timeout_response, DeviceInfo, OfflineResponse};
use portal::tunnel_server::session::{open_tunnel, TunnelAdmission, TunnelEvent, TunnelStep};

fn text(s: &str) -> JsonValue {
    JsonValue::String(s.to_string())
}

fn num(n: u64) -> JsonValue {
    JsonValue::Number(JsonNumber::PosInt(n))
}

fn neg(n: i64) -> JsonValue {
    JsonValue::Number(JsonNumber::NegInt(n))
}

fn obj(fields: Vec<(&str, JsonValue)>) -> JsonValue {
    JsonValue::Object(fields.into_iter().map(|(k, v)| (k.to_string(), v)).collect())
}

fn member<'a>(v: &'a JsonValue, key: &str) -> &'a JsonValue {
    match v {
        JsonValue::Object(f) => &f.iter().find(|(k, _)| k == key).unwrap().1,
        _ => panic!("not an object"),
    }
}

const EMPTY_SHA256: &str = "e3b0c44298fc1c149afbf4c8996fb92427ae41e4649b934ca495991b7852b855";

#[test]
fn tokens_are_made_and_stored() {
    assert_eq!(hash_token(""), EMPTY_SHA256);
    assert_eq!(token_from_bytes(&[0x00, 0xab, 0x10]), "tmcp_00ab10");
    assert_eq!(key_from_bytes(&[0xff, 0x01, 0x9c]), "ff019c");
    assert_eq!(token_output("json", "t1"), "{\"token\": \"t1\"}");
    assert_eq!(token_output("text", "t1"), "t1");
    assert_eq!(status_url("http://h//", "tok"), "http://h/v1/tok/status");
}

#[test]
fn token_backends_decide() {
    assert!(validate_token("anything", "allow_all", None));
    let file = format!("other\n  {}  \r\n", EMPTY_SHA256);
    assert!(validate_token("", "static_file", Some(&file)));
    assert!(!validate_token("x", "static_file", Some(&file)));
    assert!(!validate_token("", "static_file", None));
    assert!(!validate_token("", "ldap", Some(&file)));
}

#[test]
fn offline_and_timeout_answers_name_the_device() {
    let named = DeviceInfo { name: Some("Mac".to_string()), last_seen: UtcTime { secs: 0, nanos: 0 } };
    let body = create_offline_response(Some(num(1)), Some(&named));
    let error = member(&body, "error");
    assert_eq!(member(error, "code"), &neg(-32001));
    assert_eq!(member(error, "message"), &text("Device 'Mac' is currently offline or disconnected"));
    assert_eq!(member(member(error, "data"), "last_seen"), &text("1970-01-01T00:00:00+00:00"));
    let body = create_offline_response(None, None);
    assert_eq!(member(&body, "id"), &JsonValue::Null);
    let error = member(&body, "error");
    assert_eq!(member(error, "message"), &text("The requested device is currently offline or disconnected"));
    assert_eq!(member(member(error, "data"), "last_seen"), &JsonValue::Null);
    let body = create_timeout_response(None, Some(&DeviceInfo { name: None, last_seen: UtcTime { secs: 0, nanos: 0 } }));
    let error = member(&body, "error");
    assert_eq!(member(error, "code"), &neg(-32000));
    assert_eq!(member(error, "message"), &text("The device did not respond in time"));
    assert_eq!(member(member(error, "data"), "retry_after_seconds"), &num(10));
    let r = OfflineResponse::new(None, Some(&named), 12);
    assert_eq!(r.retry_after, 12);
    assert_eq!(r.status(), 503);
    let reply = r.into_reply();
    assert_eq!(reply.status, 503);
    assert_eq!(member(member(&reply.body, "error"), "code"), &neg(-32001));
}

#[test]
fn posted_requests_are_answered() {
    let r = parse_error_reply("expected value");
    assert_eq!(r.status, 400);
    assert_eq!(member(member(&r.body, "error"), "message"), &text("Parse error: expected value"));
    assert_eq!(member(member(&r.body, "error"), "code"), &neg(-32700));

    let payload = obj(vec![("id", num(7)), ("method", text("tools/list"))]);
    let id = posted_request_id(&payload);
    assert_eq!(id, Some(num(7)));
    let m = forwarded_request(3, payload, 30);
    assert_eq!((m.correlation_id, m.timeout_ms), (3, Some(30000)));
    assert!(m.target_server.is_none());

    let ok = answer(id, DeviceOutcome::Answered(McpResponseMessage::success(3, text("raw"))), None);
    assert_eq!((ok.status, ok.body), (200, text("raw")));
    let err = answer(Some(num(7)), DeviceOutcome::Answered(McpResponseMessage::error(3, TunnelError::new(-5, "no"))), None);
    assert_eq!(
        err.body,
        obj(vec![("jsonrpc", text("2.0")), ("id", num(7)), ("error", obj(vec![("code", neg(-5)), ("message", text("no"))]))])
    );
    let empty = answer(None, DeviceOutcome::Answered(McpResponseMessage { correlation_id: 3, payload: None, error: None }), None);
    assert_eq!(empty.body, obj(vec![("jsonrpc", text("2.0")), ("id", JsonValue::Null), ("result", JsonValue::Null)]));
    let late = answer(None, DeviceOutcome::TimedOut, None);
    assert_eq!(late.status, 504);

    let s = device_status(false, Some(&DeviceInfo { name: Some("Mac".to_string()), last_seen: UtcTime { secs: 86400, nanos: 0 } }));
    assert_eq!(
        s.body,
        obj(vec![
            ("status", text("offline")),
            ("device_name", text("Mac")),
            ("last_seen", text("1970-01-02T00:00:00+00:00")),
        ])
    );
    assert_eq!(member(&device_status(true, None).body, "status"), &text("online"));
    let precise = device_status(true, Some(&DeviceInfo { name: None, last_seen: UtcTime { secs: 86400, nanos: 250_000_000 } }));
    assert_eq!(member(&precise.body, "last_seen"), &text("1970-01-02T00:00:00.250+00:00"));
}

fn auth(token: &str) -> AuthMessage {
    AuthMessage { token: token.to_string(), client_version: "1".to_string(), device_name: None }
}

#[test]
fn tunnels_open_for_accepted_tokens() {
    match open_tunnel(None, "allow_all", None, "s".to_string()) {
        TunnelAdmission::Refuse(TunnelMessage::AuthResult(a)) => assert_eq!(a.error.as_deref(), Some("Authentication timeout")),
        _ => panic!(),
    }
    match open_tunnel(Some(auth("x")), "static_file", Some(EMPTY_SHA256), "s".to_string()) {
        TunnelAdmission::Refuse(TunnelMessage::AuthResult(a)) => assert_eq!(a.error.as_deref(), Some("Invalid token")),
        _ => panic!(),
    }
    let mut session = match open_tunnel(Some(auth("")), "static_file", Some(EMPTY_SHA256), "s9".to_string()) {
        TunnelAdmission::Admit { session, welcome } => {
            match welcome {
                TunnelMessage::AuthResult(a) => assert_eq!(a.session_id.as_deref(), Some("s9")),
                _ => panic!(),
            }
            session
        },
        _ => panic!(),
    };
    let mut pending = PendingRequests::new();
    pending.register(1);
    let resp = TunnelMessage::McpResponse(McpResponseMessage::success(1, JsonValue::Null));
    assert!(matches!(session.step(&mut pending, TunnelEvent::Text(Some(resp)), 0), TunnelStep::Answered { delivered: true, .. }));
    let again = TunnelMessage::McpResponse(McpResponseMessage::success(1, JsonValue::Null));
    assert!(matches!(session.step(&mut pending, TunnelEvent::Text(Some(again)), 0), TunnelStep::Answered { delivered: false, .. }));
    assert!(matches!(session.step(&mut pending, TunnelEvent::WsPong, 0), TunnelStep::Touched));
    match session.step(&mut pending, TunnelEvent::Tick, 99) {
        TunnelStep::Send(TunnelMessage::Ping(PingMessage { timestamp, sequence })) => assert_eq!((timestamp, sequence), (99, 1)),
        _ => panic!(),
    }
    assert!(matches!(session.step(&mut pending, TunnelEvent::SendFailed, 0), TunnelStep::Stop));
}

#[test]
fn pings_count_up_from_one() {
    let mut session = match open_tunnel(Some(auth("t")), "allow_all", None, "s".to_string()) {
        TunnelAdmission::Admit { session, .. } => session,
        _ => panic!(),
    };
    let mut pending = PendingRequests::new();
    let mut sent = Vec::new();
    let events = vec![TunnelEvent::Tick, TunnelEvent::WsPong, TunnelEvent::Tick, TunnelEvent::Text(None), TunnelEvent::Tick];
    for (t, e) in events.into_iter().enumerate() {
        if let TunnelStep::Send(TunnelMessage::Ping(p)) = session.step(&mut pending, e, t as u64) {
            sent.push((p.sequence, p.timestamp));
        }
    }
    assert_eq!(sent, vec![(1, 0), (2, 2), (3, 4)]);
    assert_eq!(session.ping_sequence, 3);
}
