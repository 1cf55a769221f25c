use portal::commands::{AgentCommandKind, DiagnosticsResponse, McpStatusResponse, OpenSettings, OpenSettingsResponse,
    RestartAgentResponse, RestartMcpServer, RestartMcpServerResponse, ServerEventKind, UpdateMcpConfig,
    UpdateMcpConfigResponse};
use portal::error::{ClientError, ServerError, TunnelError};
use portal::json::{JsonNumber, JsonValue};
use portal::jsonrpc::{forward_result, forwarded_payload, request, request_id, result_envelope, ForwardError};
use portal::protocol::{AuthResultMessage, McpResponseMessage};
use portal::transport::{classify_agent_command, classify_server_event, AgentCommands, AgentDispatch, CommandError,
    CommandResult, Dispatcher, Message, PendingRequests};

fn text(s: &str) -> JsonValue {
    JsonValue::String(s.to_string())
}

fn obj(fields: Vec<(&str, JsonValue)>) -> JsonValue {
    JsonValue::Object(fields.into_iter().map(|(k, v)| (k.to_string(), v)).collect())
}

struct TestAgent;

impl AgentCommands for TestAgent {
    fn get_diagnostics(&self) -> CommandResult<DiagnosticsResponse> {
        Ok(DiagnosticsResponse { os: "test".into(), permissions: vec![] })
    }

    fn open_settings(&self, _cmd: OpenSettings) -> CommandResult<OpenSettingsResponse> {
        Ok(OpenSettingsResponse { success: true })
    }

    fn get_mcp_status(&self) -> CommandResult<McpStatusResponse> {
        Ok(McpStatusResponse { servers: vec![] })
    }

    fn update_mcp_config(&mut self, _cmd: UpdateMcpConfig) -> CommandResult<UpdateMcpConfigResponse> {
        Ok(UpdateMcpConfigResponse { success: true })
    }

    fn restart_agent(&self) -> CommandResult<RestartAgentResponse> {
        Ok(RestartAgentResponse { success: true })
    }

    fn restart_mcp_server(&mut self, _cmd: RestartMcpServer) -> CommandResult<RestartMcpServerResponse> {
        Ok(RestartMcpServerResponse { success: true })
    }
}

#[test]
fn test_dispatcher() {
    let dispatcher = Dispatcher::new(TestAgent);
    let request = Message::Request { id: 1, name: "get_diagnostics".to_string(), payload: obj(vec![]) };
    match dispatcher.route(request) {
        AgentDispatch::Run { id, kind, .. } => {
            assert_eq!(id, 1);
            assert_eq!(kind, AgentCommandKind::GetDiagnostics);
            let diag = dispatcher.handler().get_diagnostics().ok().unwrap();
            let payload = obj(vec![("os", text(&diag.os)), ("permissions", JsonValue::Array(vec![]))]);
            match Message::reply(id, Ok(payload)) {
                Message::Response { id: reply_id, payload, error } => {
                    assert_eq!(reply_id, 1);
                    assert!(error.is_none());
                    assert_eq!(payload.unwrap().get("os"), Some(&text("test")));
                },
                _ => panic!("expected response"),
            }
        },
        _ => panic!("expected the command to run"),
    }
}

#[test]
fn unknown_commands_are_answered_with_an_error() {
    let dispatcher = Dispatcher::new(TestAgent);
    match dispatcher.route(Message::Request { id: 2, name: "reboot".to_string(), payload: JsonValue::Null }) {
        AgentDispatch::Reply(Message::Response { id, payload, error }) => {
            assert_eq!(id, 2);
            assert!(payload.is_none());
            assert_eq!(error.as_deref(), Some("unknown command: reboot"));
        },
        _ => panic!(),
    }
    assert!(matches!(dispatcher.route(Message::Event { name: "x".to_string(), payload: JsonValue::Null }), AgentDispatch::Ignore));
}

#[test]
fn command_names_round_trip() {
    for k in [
        AgentCommandKind::GetDiagnostics,
        AgentCommandKind::OpenSettings,
        AgentCommandKind::GetMcpStatus,
        AgentCommandKind::UpdateMcpConfig,
        AgentCommandKind::RestartAgent,
        AgentCommandKind::RestartMcpServer,
    ] {
        assert_eq!(classify_agent_command(k.name()).ok().unwrap(), k);
    }
    for k in [ServerEventKind::Log, ServerEventKind::McpServerStatusChanged, ServerEventKind::AgentReady] {
        assert_eq!(classify_server_event(k.name()), Some(k));
    }
    assert_eq!(classify_server_event("diagnostics"), None);
}

#[test]
fn a_reply_reaches_its_request_once() {
    let mut p = PendingRequests::new();
    p.register(10);
    assert!(p.is_pending(10));
    let reply = Message::reply(10, Ok(text("done")));
    match p.complete(&reply) {
        Some((id, Ok(v))) => assert_eq!((id, v), (10, text("done"))),
        _ => panic!(),
    }
    assert!(p.complete(&reply).is_none());
    p.register(11);
    match p.complete(&Message::Response { id: 11, payload: None, error: Some("e".to_string()) }) {
        Some((_, Err(e))) => assert_eq!(e.message, "e"),
        _ => panic!(),
    }
    p.register(12);
    match p.complete(&Message::Response { id: 12, payload: None, error: None }) {
        Some((_, Ok(v))) => assert_eq!(v, JsonValue::Null),
        _ => panic!(),
    }
    assert!(p.complete(&Message::Response { id: 99, payload: None, error: None }).is_none());
    assert_eq!(p.len(), 0);
    let e: CommandError = CommandError::from("boom".to_string());
    assert_eq!(e.message, "boom");
}

#[test]
fn json_rpc_envelopes() {
    assert_eq!(
        request(JsonValue::Number(JsonNumber::PosInt(1)), "tools/list", obj(vec![])),
        obj(vec![
            ("jsonrpc", text("2.0")),
            ("id", JsonValue::Number(JsonNumber::PosInt(1))),
            ("method", text("tools/list")),
            ("params", obj(vec![])),
        ])
    );
    assert_eq!(result_envelope(None, text("r")), obj(vec![("jsonrpc", text("2.0")), ("id", JsonValue::Null), ("result", text("r"))]));
    assert_eq!(request_id(&obj(vec![("id", text("a"))])), Some(text("a")));
    assert_eq!(request_id(&text("a")), None);
    match forward_result(McpResponseMessage::error(1, TunnelError::internal("bad"))) {
        Err(ForwardError::Remote(m)) => assert_eq!(m, "bad"),
        _ => panic!(),
    }
    assert_eq!(forward_result(McpResponseMessage { correlation_id: 1, payload: None, error: None }).err().unwrap().message(), "Empty response");
    assert_eq!(forward_result(McpResponseMessage::success(1, obj(vec![]))).err().unwrap().message(), "No result in response");
    assert_eq!(forward_result(McpResponseMessage::success(1, obj(vec![("result", text("x"))]))).ok().unwrap(), text("x"));
}

#[test]
fn errors_are_worded() {
    assert_eq!(ClientError::Connection("refused".to_string()).message(), "Connection failed: refused");
    assert_eq!(ClientError::Io("disk".to_string()).message(), "IO error: disk");
    assert_eq!(ClientError::Config("x".to_string()).message(), "Configuration error: x");
    assert_eq!(ServerError::InvalidToken.message(), "Invalid token");
    assert_eq!(ServerError::DeviceOffline("mac".to_string()).message(), "Device offline: mac");
    assert_eq!(ServerError::Internal("db".to_string()).message(), "Internal error: db");
    assert_eq!(TunnelError::timeout("t").code, -32000);
    let ok = AuthResultMessage::success("s".to_string());
    assert!(ok.success && ok.error.is_none());
    let no = AuthResultMessage::failure("Invalid token");
    assert_eq!(no.error.as_deref(), Some("Invalid token"));
}

#[test]
fn forwarded_requests_carry_the_correlation_id_as_a_uuid() {
    let v = forwarded_payload(0x0123456789abcdef0011223344556677, "tools/list", JsonValue::Null);
    assert_eq!(v.get("id"), Some(&JsonValue::String("01234567-89ab-cdef-0011-223344556677".to_string())));
    assert_eq!(v.get("method"), Some(&JsonValue::String("tools/list".to_string())));
    let w = forwarded_payload(0, "ping", JsonValue::Null);
    assert_eq!(w.get("id"), Some(&JsonValue::String("00000000-0000-0000-0000-000000000000".to_string())));
}
