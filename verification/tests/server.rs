use portal::commands;
use portal::http::{error_reply, health, offline_header_lines, UtcTime};
use portal::json::{JsonNumber, JsonValue};
use portal::protocol::{AuthMessage, DisconnectReason, McpResponseMessage, PongMessage, TunnelMessage};
use portal::server::auth::{extract_token, read_claims, user_from_claims, AuthUser, ClerkAuth, ClerkClaims};
use portal::server::config::{default_retry_after, LimitsSection, ServerConfig};
use portal::server::dashboard::{dashboard_page, new_user_records, recorded_email, request_user};
use portal::server::device_session::{admit_device, check_device_key, read_transport_message, Admission, DeviceEvent,
    DeviceFrame, DeviceNote, DeviceStep, KeyLookup};
use portal::server::frontend::{asset_cache_control, asset_path, choose_answer, inject_config, page_config, response_for_asset,
    FrontendAnswer};
use portal::server::models::{config_for_agent, Device, DeviceWithGateway, Gateway, McpConfig, McpServerConfig};
use portal::server::pending::PendingRequests;
use portal::server::registry::{ConnectionHandle, ConnectionRegistry};
use portal::server::routing::{aggregate_tools, expose_tool, route_tool_call, DeviceTools, RouteError, ToolEntry};
use portal::server::status::{check_gateway, gateway_offline_body, gateway_status, service_failure, GatewayLookup,
    OfflineResponse};
use portal::server::web::{extract_base_url, install_script, normalize_alias, InstallError};
use portal::error::TunnelError;
use portal::transport::Message;

fn text(s: &str) -> JsonValue {
    JsonValue::String(s.to_string())
}

fn num(n: u64) -> JsonValue {
    JsonValue::Number(JsonNumber::PosInt(n))
}

fn obj(fields: Vec<(&str, JsonValue)>) -> JsonValue {
    JsonValue::Object(fields.into_iter().map(|(k, v)| (k.to_string(), v)).collect())
}

fn handle(session: &str, gateway: &str, alias: &str) -> ConnectionHandle {
    ConnectionHandle {
        session_id: session.to_string(),
        device_id: format!("dev-{}", alias),
        gateway_id: gateway.to_string(),
        device_alias: alias.to_string(),
        connected_at_utc: at(0),
        device_name: None,
        channel: 1,
        last_seen: 0,
    }
}

fn at(secs: i64) -> UtcTime {
    UtcTime { secs, nanos: 0 }
}

fn device(key: &str, alias: &str) -> DeviceWithGateway {
    DeviceWithGateway {
        device: Device {
            id: format!("id-{}", alias),
            gateway_id: "g1".to_string(),
            key: key.to_string(),
            name: "Laptop".to_string(),
            alias: alias.to_string(),
            mcp_config: McpConfig {
                servers: vec![(
                    "fs".to_string(),
                    McpServerConfig { command: "fs".to_string(), args: vec![], env: vec![], enabled: true },
                )],
            },
            created_at: 0,
        },
        gateway_key: "gk".to_string(),
    }
}

#[test]
fn a_registered_device_is_online_until_it_leaves() {
    let mut r = ConnectionRegistry::new();
    assert!(r.register("k1", "dev-mac", "g1", "mac", handle("s1", "g1", "mac"), at(100)).is_none());
    assert!(r.is_online("k1"));
    assert_eq!(r.connection_count(), 1);
    assert_eq!(r.get_online_device_count("g1"), 1);
    assert_eq!(r.get_gateway_connections("g1").len(), 1);
    let old = r.register("k1", "dev-mac", "g1", "mac", handle("s2", "g1", "mac"), at(200)).unwrap();
    assert_eq!(old.session_id, "s1");
    r.update_last_seen("k1", at(300));
    assert_eq!(r.get("k1").unwrap().last_seen, 300);
    r.unregister("k1", at(400));
    assert!(!r.is_online("k1"));
    assert_eq!(r.get_online_device_count("g1"), 0);
    assert!(r.get_gateway_connections("g1").is_empty());
    assert_eq!(r.get_device_info("dev-mac").unwrap().last_seen, at(400));
}

#[test]
fn a_response_is_delivered_once() {
    let mut p = PendingRequests::new();
    p.register(5);
    assert_eq!(p.pending_count(), 1);
    let resp = McpResponseMessage::success(5, JsonValue::Null);
    assert!(p.complete(&resp));
    assert!(!p.complete(&resp));
    p.register(6);
    p.cancel(6);
    assert!(!p.complete(&McpResponseMessage::success(6, JsonValue::Null)));
    assert_eq!(p.pending_count(), 0);
}

fn entry(name: &str, desc: Option<&str>) -> ToolEntry {
    ToolEntry { name: name.to_string(), description: desc.map(|d| d.to_string()) }
}

#[test]
fn offered_tool_names_route_back() {
    let one = aggregate_tools(vec![DeviceTools { alias: "mac".to_string(), tools: Some(vec![entry("read", Some("Reads"))]) }]);
    assert_eq!(one[0].name, "read");
    assert_eq!(one[0].description.as_deref(), Some("Reads"));
    let many = aggregate_tools(vec![
        DeviceTools { alias: "mac".to_string(), tools: Some(vec![entry("read", Some("Reads")), entry("x", None)]) },
        DeviceTools { alias: "pc".to_string(), tools: None },
    ]);
    assert_eq!(many.len(), 2);
    assert_eq!(many[0].name, "mac:read");
    assert_eq!(many[0].description.as_deref(), Some("[mac] Reads"));
    assert!(many[1].description.is_none());
    let e = expose_tool(false, "pc", entry("t", None));
    assert_eq!(e.name, "pc:t");

    let aliases = vec!["mac".to_string(), "pc".to_string()];
    let r = route_tool_call(&aliases, "pc:run:fast").ok().unwrap();
    assert_eq!((r.device, r.tool_name.as_str()), (1, "run:fast"));
    let single = vec!["mac".to_string()];
    let r = route_tool_call(&single, "mac:read").ok().unwrap();
    assert_eq!((r.device, r.tool_name.as_str()), (0, "mac:read"));
    let e = route_tool_call(&vec![], "read").err().unwrap();
    assert_eq!(e.message(), "Tool 'read' not found (no devices connected)");
    let e = route_tool_call(&aliases, "read").err().unwrap();
    assert!(matches!(e, RouteError::MissingAlias));
    assert_eq!(e.message(), "Tool name must be prefixed with device alias (e.g., 'mac:tool_name')");
    let e = route_tool_call(&aliases, "tv:read").err().unwrap();
    assert_eq!(e.message(), "Device 'tv' not found or offline");
}

#[test]
fn device_keys_are_checked() {
    assert!(check_device_key(KeyLookup::Found(device("k", "mac"))).is_ok());
    match check_device_key(KeyLookup::Unknown).err().unwrap() {
        TunnelMessage::AuthResult(a) => assert_eq!((a.success, a.error.as_deref()), (false, Some("Invalid device key"))),
        _ => panic!(),
    }
    match check_device_key(KeyLookup::Failed).err().unwrap() {
        TunnelMessage::AuthResult(a) => assert_eq!(a.error.as_deref(), Some("Internal error")),
        _ => panic!(),
    }
}

fn auth() -> AuthMessage {
    AuthMessage { token: "k".to_string(), client_version: "1".to_string(), device_name: Some("Mac".to_string()) }
}

#[test]
fn a_device_session_runs_and_ends() {
    let mut registry = ConnectionRegistry::new();
    let mut pending = PendingRequests::new();
    match admit_device(&mut registry, "k", device("k", "mac"), None, "s".to_string(), 1, at(10)) {
        Admission::Refuse(TunnelMessage::AuthResult(a)) => assert_eq!(a.error.as_deref(), Some("Authentication timeout")),
        _ => panic!(),
    }
    assert!(!registry.is_online("k"));
    let (mut session, welcome, config) = match admit_device(&mut registry, "k", device("k", "mac"), Some(auth()), "s1".to_string(), 1, at(10)) {
        Admission::Admit { session, welcome, config, replaced, notice } => {
            assert!(replaced.is_none());
            assert!(notice.is_none());
            (session, welcome, config)
        },
        _ => panic!(),
    };
    assert!(registry.is_online("k"));
    assert_eq!(registry.get_gateway_connections("g1").len(), 1);
    assert_eq!(registry.get_gateway_connections("id-mac").len(), 0);
    assert_eq!(registry.get_device_info("id-mac").unwrap().last_seen, at(10));
    assert_eq!(registry.get("k").unwrap().device_name.as_deref(), Some("Mac"));
    match welcome {
        TunnelMessage::AuthResult(a) => assert_eq!((a.success, a.session_id.as_deref()), (true, Some("s1"))),
        _ => panic!(),
    }
    match config {
        TunnelMessage::Config(c) => assert_eq!(c.mcp_servers[0].0, "fs"),
        _ => panic!(),
    }

    match session.step(&mut registry, &mut pending, DeviceEvent::Tick, at(50)) {
        DeviceStep::Send(TunnelMessage::Ping(p)) => assert_eq!((p.sequence, p.timestamp), (1, 50)),
        _ => panic!(),
    }
    pending.register(9);
    let frame = DeviceFrame::Legacy(TunnelMessage::McpResponse(McpResponseMessage::success(9, JsonValue::Null)));
    assert!(matches!(session.step(&mut registry, &mut pending, DeviceEvent::Text(frame), at(60)),
        DeviceStep::Continue(DeviceNote::Response { delivered: true, .. })));
    assert_eq!(registry.get("k").unwrap().last_seen, 60);
    let pong = DeviceFrame::Legacy(TunnelMessage::Pong(PongMessage { timestamp: 1, sequence: 1, server_timestamp: 1 }));
    assert!(matches!(session.step(&mut registry, &mut pending, DeviceEvent::Text(pong), at(61)),
        DeviceStep::Continue(DeviceNote::Nothing)));
    let ready = DeviceFrame::Transport(Message::Event { name: "agent_ready".to_string(), payload: JsonValue::Null });
    assert!(matches!(session.step(&mut registry, &mut pending, DeviceEvent::Text(ready), at(62)),
        DeviceStep::Continue(DeviceNote::AgentReady)));
    assert!(matches!(session.step(&mut registry, &mut pending, DeviceEvent::Queued(None), at(70)), DeviceStep::Stop));
    assert!(!registry.is_online("k"));
}

#[test]
fn transport_messages_are_read() {
    let n = read_transport_message(Message::Event { name: "diagnostics".to_string(), payload: num(1) });
    assert!(matches!(n, DeviceNote::Diagnostics(_)));
    let n = read_transport_message(Message::Event { name: "mcp_status".to_string(), payload: num(1) });
    assert!(matches!(n, DeviceNote::McpStatus(_)));
    match read_transport_message(Message::Event { name: "other".to_string(), payload: num(1) }) {
        DeviceNote::UnknownEvent(n) => assert_eq!(n, "other"),
        _ => panic!(),
    }
    match read_transport_message(Message::Response { id: 3, payload: None, error: Some("bad".to_string()) }) {
        DeviceNote::CommandFailed { id, error } => assert_eq!((id, error.as_str()), (3, "bad")),
        _ => panic!(),
    }
    assert!(matches!(read_transport_message(Message::Response { id: 3, payload: Some(num(2)), error: None }),
        DeviceNote::Diagnostics(_)));
}

#[test]
fn gateway_answers() {
    let g = Gateway { id: "g".to_string(), user_id: "u".to_string(), key: "k".to_string(), name: None, created_at: 0 };
    assert!(check_gateway(GatewayLookup::Found(g)).is_ok());
    let r = check_gateway(GatewayLookup::Unknown).err().unwrap();
    assert_eq!((r.status, r.body), (404, obj(vec![("error", text("Gateway not found"))])));
    let r = check_gateway(GatewayLookup::Failed).err().unwrap();
    assert_eq!((r.status, r.body), (500, obj(vec![("error", text("Internal error"))])));
    assert_eq!(service_failure().body, obj(vec![("error", text("Internal server error"))]));
    assert_eq!(health().body, obj(vec![("status", text("ok"))]));
    assert_eq!(error_reply(418, "tea").status, 418);

    let empty = gateway_status(&vec![]);
    assert_eq!(
        empty.body,
        obj(vec![("status", text("offline")), ("online_devices", num(0)), ("devices", JsonValue::Array(vec![]))])
    );
    let online = gateway_status(&vec![handle("s", "g", "mac")]);
    assert_eq!(
        online.body,
        obj(vec![
            ("status", text("online")),
            ("online_devices", num(1)),
            ("devices", JsonValue::Array(vec![obj(vec![
                ("alias", text("mac")),
                ("device_name", JsonValue::Null),
                ("connected_at", text("1970-01-01T00:00:00+00:00")),
            ])])),
        ])
    );
}

#[test]
fn the_offline_answer_says_when_to_retry() {
    let body = gateway_offline_body(Some(num(4)));
    assert_eq!(
        body,
        obj(vec![
            ("jsonrpc", text("2.0")),
            ("id", num(4)),
            ("error", obj(vec![
                ("code", JsonValue::Number(JsonNumber::NegInt(-32001))),
                ("message", text("No devices are currently online for this gateway")),
                ("data", obj(vec![
                    ("error_type", text("device_offline")),
                    ("retry_after_seconds", num(30)),
                    ("help", text("The device may be disconnected. Please try again later.")),
                ])),
            ])),
        ])
    );
    let r = OfflineResponse::new(None, default_retry_after());
    assert_eq!((r.status(), r.retry_after), (503, 30));
    let h = offline_header_lines(45);
    assert_eq!(h[1], ("Retry-After".to_string(), "45".to_string()));
    assert_eq!(h[2], ("X-Device-Status".to_string(), "offline".to_string()));
}

#[test]
fn the_dashboard_acts_for_a_user() {
    let dev = request_user(None, false).unwrap();
    assert_eq!((dev.clerk_user_id.as_str(), dev.email.as_deref()), ("dev-user", Some("dev@example.com")));
    assert!(request_user(None, true).is_none());
    assert_eq!(recorded_email(&AuthUser { clerk_user_id: "x".to_string(), email: None }), "unknown");

    let mut registry = ConnectionRegistry::new();
    registry.register("k1", "d1", "g", "mac", handle("s", "g", "mac"), at(0));
    let gateway = Gateway { id: "g".to_string(), user_id: "u".to_string(), key: "gk".to_string(), name: None, created_at: 0 };
    let devices = vec![device("k1", "mac").device, device("k2", "pc").device];
    let page = dashboard_page(AuthUser { clerk_user_id: "u".to_string(), email: None }, gateway, devices, &registry, "http://h".to_string());
    assert_eq!(page.email, "Unknown");
    assert_eq!(page.gateway_key, "gk");
    assert!(page.devices[0].is_online);
    assert!(!page.devices[1].is_online);
    let (u, g) = new_user_records("c".to_string(), "e".to_string(), "u1".to_string(), "g1".to_string(), "key".to_string(), 5);
    assert_eq!((g.user_id.as_str(), u.created_at, g.created_at), ("u1", 5, 5));
}

#[test]
fn session_tokens_are_found() {
    assert_eq!(extract_token(Some("Bearer abc"), None, None).as_deref(), Some("abc"));
    assert_eq!(extract_token(None, Some("a=1&__clerk_db_jwt=x%20y"), None).as_deref(), Some("x y"));
    assert_eq!(extract_token(None, None, Some("a=1; __session=tok")).as_deref(), Some("tok"));
    assert_eq!(extract_token(Some("Basic x"), None, None), None);
    let u = user_from_claims(ClerkClaims {
        sub: "user_1".to_string(),
        email: Some("a@b".to_string()),
        exp: 0,
        iat: 0,
        iss: "i".to_string(),
        azp: None,
    });
    assert_eq!((u.clerk_user_id.as_str(), u.email.as_deref()), ("user_1", Some("a@b")));
    let c = ClerkAuth::new("clerk.example.com");
    assert_eq!(c.jwks_url(), "https://clerk.example.com/.well-known/jwks.json");
    assert_eq!(c.issuer(), "https://clerk.example.com");
}

#[test]
fn web_helpers() {
    assert_eq!(extract_base_url(Some(Some("a.com")), Some(Some("b")), Some("https")), "https://a.com");
    assert_eq!(extract_base_url(None, None, None), "http://localhost:8080");
    assert_eq!(normalize_alias("MacBook").as_deref(), Some("macbook"));
    assert_eq!(normalize_alias("x"), None);
    assert_eq!(normalize_alias("toolongalias"), None);
    assert_eq!(normalize_alias("a-b"), None);
    assert_eq!(install_script(None, "http://h").err().unwrap(), InstallError::RepoNotConfigured);
    let s = install_script(Some("me/portal"), "http://h").ok().unwrap();
    assert!(s.contains("REPO=\"me/portal\""));
    assert!(s.contains("--server http://h"));
}

#[test]
fn the_frontend_serves_its_page() {
    assert_eq!(asset_path("//assets/app.js"), "assets/app.js");
    assert_eq!(choose_answer(true, false), FrontendAnswer::Asset);
    assert_eq!(choose_answer(false, true), FrontendAnswer::Page);
    assert_eq!(choose_answer(false, false), FrontendAnswer::NotFound);
    assert_eq!(asset_cache_control(), "public, max-age=31536000, immutable");
    assert_eq!(page_config(Some("pk")), obj(vec![("clerkPublishableKey", text("pk"))]));
    assert_eq!(page_config(None), obj(vec![("clerkPublishableKey", JsonValue::Null)]));
    assert_eq!(
        inject_config("<html><head></head></html>", "{}"),
        "<html><head><script>window.__CONFIG__ = {};</script></head></html>"
    );
}

#[test]
fn configuration_defaults() {
    let c = ServerConfig::default();
    assert_eq!(c.tokens.backend, "allow_all");
    assert_eq!(c.limits.request_timeout_secs, 30);
    assert_eq!(c.heartbeat.interval_secs, 30);
    assert_eq!(c.offline_response.retry_after_secs, 30);
    assert_eq!(LimitsSection::default().request_timeout_ms(), 30000);
    let cfg = config_for_agent(McpConfig { servers: vec![(
        "a".to_string(),
        McpServerConfig { command: "c".to_string(), args: vec!["x".to_string()], env: vec![], enabled: false },
    )] });
    assert_eq!(cfg[0].1.command, "c");
    assert!(!cfg[0].1.enabled);
    let _ = commands::default_true();
    assert_eq!(TunnelError::device_offline("x").code, -32001);
}

#[test]
fn a_second_connection_replaces_the_first() {
    let mut registry = ConnectionRegistry::new();
    assert!(matches!(admit_device(&mut registry, "k", device("k", "mac"), Some(auth()), "s1".to_string(), 1, at(10)),
        Admission::Admit { notice: None, .. }));
    match admit_device(&mut registry, "k", device("k", "mac"), Some(auth()), "s2".to_string(), 2, at(20)) {
        Admission::Admit { replaced: Some(old), notice: Some((channel, TunnelMessage::Disconnect(d))), .. } => {
            assert_eq!(old.session_id, "s1");
            assert_eq!(channel, 1);
            assert_eq!(d.reason, DisconnectReason::TokenRevoked);
            assert_eq!(d.message.as_deref(), Some("New connection established"));
        },
        _ => panic!(),
    }
    assert_eq!(registry.connection_count(), 1);
    assert_eq!(registry.get("k").unwrap().session_id, "s2");
}

#[test]
fn session_tokens_are_checked_in_order() {
    let auth = ClerkAuth::new("clerk.example.com");
    assert_eq!(auth.validate_token(None, "a.b.c").unwrap_err(), "JWKS not loaded");
    let keys = jsonwebtoken::jwk::JwkSet { keys: vec![] };
    assert!(auth.validate_token(Some(&keys), "not a token").is_err());
    assert_eq!(
        auth.validate_token(Some(&keys), "eyJhbGciOiJSUzI1NiIsInR5cCI6IkpXVCJ9.e30.c2ln").unwrap_err(),
        "No kid in token header"
    );
    assert_eq!(
        auth.validate_token(Some(&keys), "eyJhbGciOiJSUzI1NiIsInR5cCI6IkpXVCIsImtpZCI6ImsxIn0.e30.c2ln").unwrap_err(),
        "Key not found in JWKS"
    );
}

#[test]
fn token_claims_are_read() {
    let v: serde_json::Value = serde_json::from_str(
        r#"{"sub":"user_1","email":null,"exp":200,"iat":100,"iss":"https://clerk.example.com","azp":"http://x","nbf":1}"#,
    ).unwrap();
    let c = read_claims(&v).unwrap();
    assert_eq!((c.sub.as_str(), c.exp, c.iat, c.iss.as_str()), ("user_1", 200, 100, "https://clerk.example.com"));
    assert_eq!((c.email, c.azp.as_deref()), (None, Some("http://x")));
    let missing: serde_json::Value = serde_json::from_str(r#"{"sub":"u","exp":1,"iat":1}"#).unwrap();
    assert_eq!(read_claims(&missing).unwrap_err(), "Invalid token claims");
    let wrong: serde_json::Value = serde_json::from_str(r#"{"sub":"u","exp":-1,"iat":1,"iss":"i"}"#).unwrap();
    assert!(read_claims(&wrong).is_err());
}

#[test]
fn assets_carry_their_media_type() {
    let r = response_for_asset("assets/style.css", b"body{}");
    assert_eq!((r.status, r.content_type.as_str(), r.body.as_slice()), (200, "text/css", &b"body{}"[..]));
    assert_eq!(r.cache_control, asset_cache_control());
    assert_eq!(response_for_asset("favicon", b"").content_type, "application/octet-stream");
}
