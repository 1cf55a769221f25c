use portal::agent::mcp_proxy::ClientPlan;
use portal::client::config::{resolve_tunnel_config, ClientConfig, McpServerConfig, TunnelConfigError, TunnelServerConfig};
use portal::client::mcp_proxy::{stdio_call, stdio_response, ForwardPlan, McpProxyManager, StdioCall, StdioFailure};
use portal::client::tunnel::{ClientReaction, TunnelConnection};
use portal::json::{JsonNumber, JsonValue};
use portal::protocol::{AuthResultMessage, DisconnectMessage, DisconnectReason, McpRequestMessage, PingMessage,
    TunnelMessage};
use portal::session::{auth_message, auth_outcome, backoff_base_secs, pong_for, replace_text, socket_step, AuthWait,
    SocketEvent, SocketStep};

fn text(s: &str) -> JsonValue {
    JsonValue::String(s.to_string())
}

fn obj(fields: Vec<(&str, JsonValue)>) -> JsonValue {
    JsonValue::Object(fields.into_iter().map(|(k, v)| (k.to_string(), v)).collect())
}

fn server(command: Option<&str>, url: Option<&str>) -> McpServerConfig {
    McpServerConfig { command: command.map(|c| c.to_string()), args: vec![], env: vec![], url: url.map(|u| u.to_string()) }
}

fn request(target: Option<&str>) -> McpRequestMessage {
    McpRequestMessage { correlation_id: 11, payload: JsonValue::Null, target_server: target.map(|t| t.to_string()), timeout_ms: None }
}

#[test]
fn replace_works_like_str_replace() {
    for (s, p, r) in [("https://a/https://", "https://", "wss://"), ("aaa", "aa", "b"), ("", "x", "y"), ("xyz", "q", "w")] {
        assert_eq!(replace_text(s, p, r), s.replace(p, r));
    }
}

#[test]
fn reconnection_delays_double_up_to_a_minute() {
    let delays: Vec<u64> = [0u32, 1, 2, 5, 6, 10, 11, 1000].iter().map(|a| backoff_base_secs(*a)).collect();
    assert_eq!(delays, vec![1, 2, 4, 32, 60, 60, 60, 60]);
}

#[test]
fn the_session_opens_or_gives_up() {
    assert_eq!(auth_outcome(AuthWait::Closed).err().unwrap(), "Connection closed during auth");
    assert_eq!(auth_outcome(AuthWait::TimedOut).err().unwrap(), "Auth timeout");
    assert_eq!(auth_outcome(AuthWait::Answered(AuthResultMessage::success("s1".to_string()))).ok().unwrap(), "s1");
    assert_eq!(
        auth_outcome(AuthWait::Answered(AuthResultMessage::failure("Invalid token"))).err().unwrap(),
        "Auth failed: Invalid token"
    );
    let bare = AuthResultMessage { success: false, error: None, session_id: None };
    assert_eq!(auth_outcome(AuthWait::Answered(bare)).err().unwrap(), "Auth failed: ");
    let no_session = AuthResultMessage { success: true, error: None, session_id: None };
    assert_eq!(auth_outcome(AuthWait::Answered(no_session)).ok().unwrap(), "");
    match auth_message("t", "1.0", Some("mac".to_string())) {
        TunnelMessage::Auth(a) => assert_eq!(a.device_name.as_deref(), Some("mac")),
        _ => panic!(),
    }
}

#[test]
fn socket_events_are_met() {
    assert!(matches!(socket_step(SocketEvent::Closed), SocketStep::Done));
    assert!(matches!(socket_step(SocketEvent::Other), SocketStep::Ignore));
    assert!(matches!(socket_step(SocketEvent::Text(None)), SocketStep::Ignore));
    match socket_step(SocketEvent::Ping(vec![1, 2])) {
        SocketStep::Pong(d) => assert_eq!(d, vec![1, 2]),
        _ => panic!(),
    }
    match socket_step(SocketEvent::Failed("reset".to_string())) {
        SocketStep::Fail(e) => assert_eq!(e, "reset"),
        _ => panic!(),
    }
    let p = pong_for(PingMessage { timestamp: 5, sequence: 9 }, 77);
    assert_eq!((p.timestamp, p.sequence, p.server_timestamp), (5, 9, 77));
}

#[test]
fn the_client_configuration_resolves() {
    let c = ClientConfig::default();
    assert!(c.device_name.is_none() && c.tunnel_server.is_none() && c.mcp_servers.is_empty());
    let c = resolve_tunnel_config(
        Some("http://x".to_string()),
        None,
        Some(TunnelServerConfig { url: "u".to_string(), token: "t".to_string() }),
    )
    .ok()
    .unwrap();
    assert_eq!((c.url.as_str(), c.token.as_str()), ("http://x", "t"));
    let e = resolve_tunnel_config(None, Some("t".to_string()), None).err().unwrap();
    assert_eq!(e, TunnelConfigError::MissingServer);
    assert_eq!(e.message(), "Tunnel server config required. Set tunnelServer in config or use --server-url and --token");
    assert!(server(Some("c"), None).is_stdio());
    assert!(server(None, Some("http://u")).is_http());
    assert!(!server(None, None).is_http());
}

#[test]
fn requests_find_their_server() {
    let none = McpProxyManager::new(vec![]);
    match none.plan_forward(&request(None)) {
        ForwardPlan::Reply(r) => assert_eq!(r.error.unwrap().message, "No MCP server configured"),
        _ => panic!(),
    }
    let m = McpProxyManager::new(vec![
        ("local".to_string(), server(Some("srv"), None)),
        ("remote".to_string(), server(None, Some("http://h"))),
        ("broken".to_string(), server(None, None)),
    ]);
    match m.plan_forward(&request(None)) {
        ForwardPlan::Stdio(n) => assert_eq!(n, "local"),
        _ => panic!(),
    }
    match m.plan_forward(&request(Some("missing"))) {
        ForwardPlan::Reply(r) => {
            let e = r.error.unwrap();
            assert_eq!((r.correlation_id, e.code, e.message.as_str()), (11, -32600, "MCP server 'missing' not found"));
        },
        _ => panic!(),
    }
    match m.plan_forward(&request(Some("remote"))) {
        ForwardPlan::Reply(r) => assert_eq!(r.error.unwrap().message, "HTTP transport not yet implemented"),
        _ => panic!(),
    }
    match m.plan_forward(&request(Some("broken"))) {
        ForwardPlan::Reply(r) => assert_eq!(r.error.unwrap().message, "Invalid MCP server config: need command or url"),
        _ => panic!(),
    }
}

#[test]
fn stdio_clients_are_started_once() {
    let mut m = McpProxyManager::new(vec![("local".to_string(), server(Some("srv"), None))]);
    assert!(matches!(m.client_plan("local"), ClientPlan::Spawn));
    m.record_client("local");
    assert!(matches!(m.client_plan("local"), ClientPlan::Reuse));
    match m.client_plan("other") {
        ClientPlan::Fail(e) => assert_eq!(e, "No command specified"),
        _ => panic!(),
    }
}

#[test]
fn requests_name_their_call() {
    assert!(matches!(stdio_call(&obj(vec![("method", text("tools/list"))])), Ok(StdioCall::ToolsList)));
    assert!(matches!(stdio_call(&obj(vec![("method", text("resources/list"))])), Ok(StdioCall::ResourcesList)));
    assert!(matches!(stdio_call(&obj(vec![("method", text("prompts/list"))])), Ok(StdioCall::PromptsList)));
    match stdio_call(&obj(vec![("method", text("tools/call")), ("params", obj(vec![("name", text("t"))]))])) {
        Ok(StdioCall::ToolsCall(p)) => assert_eq!(p, obj(vec![("name", text("t"))])),
        _ => panic!(),
    }
    let e = stdio_call(&obj(vec![("method", text("tools/call"))])).err().unwrap();
    assert_eq!((e.code, e.message.as_str()), (-32602, "Missing params for tools/call"));
    let e = stdio_call(&obj(vec![("method", text("ping"))])).err().unwrap();
    assert_eq!((e.code, e.message.as_str()), (-32601, "Method not supported: ping"));
    let e = stdio_call(&obj(vec![("method", JsonValue::Number(JsonNumber::PosInt(1)))])).err().unwrap();
    assert_eq!((e.code, e.message.as_str()), (-32600, "Missing method in request"));
}

#[test]
fn stdio_outcomes_are_answered() {
    let id = Some(text("r1"));
    let ok = stdio_response(1, id, &StdioCall::ToolsList, Ok(obj(vec![("tools", JsonValue::Array(vec![]))])));
    assert_eq!(
        ok.payload.unwrap(),
        obj(vec![("jsonrpc", text("2.0")), ("id", text("r1")), ("result", obj(vec![("tools", JsonValue::Array(vec![]))]))])
    );
    let e = stdio_response(1, None, &StdioCall::PromptsList, Err(StdioFailure::Failed("x".to_string()))).error.unwrap();
    assert_eq!((e.code, e.message.as_str()), (-32603, "prompts/list failed: x"));
    let e = stdio_response(1, None, &StdioCall::ToolsList, Err(StdioFailure::Failed("y".to_string()))).error.unwrap();
    assert_eq!(e.message, "tools/list failed: y");
    let e = stdio_response(1, None, &StdioCall::ResourcesList, Err(StdioFailure::InvalidParams("z".to_string()))).error.unwrap();
    assert_eq!((e.code, e.message.as_str()), (-32602, "Invalid params: z"));
    let e = stdio_response(1, None, &StdioCall::ResourcesList, Err(StdioFailure::Client("spawn failed".to_string()))).error.unwrap();
    assert_eq!((e.code, e.message.as_str()), (-32603, "spawn failed"));
}

#[test]
fn the_client_reacts_to_messages() {
    let t = TunnelConnection::new(TunnelServerConfig { url: "ws://h".to_string(), token: "tok".to_string() }, Some("pc".to_string()));
    assert_eq!(t.tunnel_url(), "ws://h/tunnel");
    match t.auth("1") {
        TunnelMessage::Auth(a) => assert_eq!((a.token.as_str(), a.device_name.as_deref()), ("tok", Some("pc"))),
        _ => panic!(),
    }
    assert!(matches!(t.handle_message(TunnelMessage::McpRequest(request(None)), 0), ClientReaction::Forward(_)));
    match t.handle_message(TunnelMessage::Ping(PingMessage { timestamp: 1, sequence: 2 }), 3) {
        ClientReaction::Pong(p) => assert_eq!((p.timestamp, p.sequence, p.server_timestamp), (1, 2, 3)),
        _ => panic!(),
    }
    let d = TunnelMessage::Disconnect(DisconnectMessage { reason: DisconnectReason::ServerShutdown, message: None });
    assert!(matches!(t.handle_message(d, 0), ClientReaction::Nothing));
}
