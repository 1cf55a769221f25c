use portal::agent::config::{resolve_server_config, ConfigError, McpServerConfig, ServerConfig};
use portal::agent::diagnostics::{
    check_accessibility, check_full_disk_access, full_disk_access_status, report_status, Diagnostics, FileProbe,
    Permission, PermissionStatus,
};
use portal::agent::handler::{enabled_configs, AgentHandler};
use portal::agent::mcp_proxy::{classify_method, list_response, tool_call_response, ClientPlan, McpMethod,
    McpProxyManager, ToolCallFailure};
use portal::agent::tunnel::{diagnostics_event_name, LegacyReaction, TunnelConnection};
use portal::agent::update::{find_asset, get_asset_name, is_newer, should_update, tag_version, GitHubAsset,
    GitHubRelease};
use portal::commands;
use portal::json::{JsonNumber, JsonValue};
use portal::protocol::{ConfigMessage, McpRequestMessage, PingMessage, TunnelMessage};

fn text(s: &str) -> JsonValue {
    JsonValue::String(s.to_string())
}

fn obj(fields: Vec<(&str, JsonValue)>) -> JsonValue {
    JsonValue::Object(fields.into_iter().map(|(k, v)| (k.to_string(), v)).collect())
}

fn stdio(cmd: &str) -> McpServerConfig {
    McpServerConfig { command: Some(cmd.to_string()), args: vec![], env: vec![] }
}

fn no_command() -> McpServerConfig {
    McpServerConfig { command: None, args: vec![], env: vec![] }
}

#[test]
fn test_is_newer() {
    assert!(is_newer("1.0.1", "1.0.0"));
    assert!(is_newer("1.1.0", "1.0.0"));
    assert!(is_newer("2.0.0", "1.9.9"));
    assert!(!is_newer("1.0.0", "1.0.0"));
    assert!(!is_newer("1.0.0", "1.0.1"));

    assert!(is_newer("1.0.0-beta", "1.0.0-alpha"));
    assert!(is_newer("1.0.0", "1.0.0-beta"));
    assert!(is_newer("1.0.0-alpha.2", "1.0.0-alpha.1"));
    assert!(!is_newer("1.0.0-alpha", "1.0.0"));
}

#[test]
fn test_asset_name() {
    let name = get_asset_name("linux", "x86_64");
    assert!(name.starts_with("portal-agent-"));
}

#[test]
fn asset_names_of_each_target() {
    assert_eq!(get_asset_name("macos", "aarch64"), "portal-agent-darwin-arm64");
    assert_eq!(get_asset_name("linux", "x86_64"), "portal-agent-linux-amd64");
    assert_eq!(get_asset_name("windows", "riscv64"), "portal-agent-unknown-unknown");
}

#[test]
fn unparsable_versions_never_update() {
    assert!(!is_newer("not-a-version", "1.0.0"));
    assert!(!is_newer("2.0.0", "garbage"));
    assert!(!is_newer("", ""));
}

#[test]
fn release_tags_lose_their_leading_v() {
    assert_eq!(tag_version("v1.2.3"), "1.2.3");
    assert_eq!(tag_version("vv2.0.0"), "2.0.0");
    assert_eq!(tag_version("1.0.0"), "1.0.0");
    assert!(should_update("v1.0.1", "1.0.0"));
    assert!(!should_update("v1.0.0", "1.0.0"));
}

#[test]
fn the_first_matching_asset_is_found() {
    let release = GitHubRelease {
        tag_name: "v1.0.0".to_string(),
        assets: vec![
            GitHubAsset { name: "a".to_string(), browser_download_url: "u1".to_string() },
            GitHubAsset { name: "b".to_string(), browser_download_url: "u2".to_string() },
            GitHubAsset { name: "b".to_string(), browser_download_url: "u3".to_string() },
        ],
    };
    assert_eq!(find_asset(&release, "b"), Some(1));
    assert_eq!(find_asset(&release, "c"), None);
}

#[test]
fn test_diagnostics() {
    let diag = Diagnostics::check("linux", &vec![], false);
    println!("OS: {}", diag.os);
    for perm in &diag.permissions {
        println!("  {}: {:?}", perm.name, perm.status);
    }
}

#[test]
fn macos_reports_two_permissions() {
    let probes = vec![FileProbe::Missing, FileProbe::Readable];
    let diag = Diagnostics::check("macos", &probes, false);
    assert_eq!(diag.os, "macos");
    assert_eq!(diag.permissions.len(), 2);
    assert_eq!(diag.permissions[0].name, "full_disk_access");
    assert_eq!(diag.permissions[0].status, PermissionStatus::Granted);
    assert_eq!(diag.permissions[1].name, "accessibility");
    assert_eq!(diag.permissions[1].status, PermissionStatus::Denied);
    assert!(!diag.all_granted());
    let linux = Diagnostics::check("linux", &probes, true);
    assert_eq!(linux.os, "linux");
    assert!(linux.permissions.is_empty());
    assert!(linux.all_granted());
    let other = Diagnostics::check("freebsd", &probes, true);
    assert_eq!(other.os, "freebsd");
    assert!(other.permissions.is_empty());
}

#[test]
fn the_first_existing_file_decides_disk_access() {
    assert_eq!(full_disk_access_status(&vec![]), PermissionStatus::Unknown);
    assert_eq!(full_disk_access_status(&vec![FileProbe::Missing, FileProbe::Missing]), PermissionStatus::Unknown);
    assert_eq!(
        full_disk_access_status(&vec![FileProbe::Missing, FileProbe::PermissionDenied, FileProbe::Readable]),
        PermissionStatus::Denied
    );
    assert_eq!(full_disk_access_status(&vec![FileProbe::OtherError, FileProbe::Readable]), PermissionStatus::Unknown);
    let p = check_full_disk_access(&vec![FileProbe::Readable]);
    assert_eq!(p.settings_url.unwrap(), "x-apple.systempreferences:com.apple.preference.security?Privacy_AllFiles");
    let a = check_accessibility(true);
    assert_eq!(a.status, PermissionStatus::Granted);
    assert_eq!(a.settings_url.unwrap(), "x-apple.systempreferences:com.apple.preference.security?Privacy_Accessibility");
}

#[test]
fn not_applicable_counts_as_granted_and_reports_unknown() {
    let diag = Diagnostics {
        os: "macos".to_string(),
        permissions: vec![
            Permission { name: "a".to_string(), status: PermissionStatus::NotApplicable, settings_url: None },
            Permission { name: "b".to_string(), status: PermissionStatus::Granted, settings_url: Some("x".to_string()) },
        ],
    };
    assert!(diag.all_granted());
    assert_eq!(report_status(PermissionStatus::NotApplicable), commands::PermissionStatus::Unknown);
    let r = diag.to_response();
    assert_eq!(r.os, "macos");
    assert_eq!(r.permissions[0].status, commands::PermissionStatus::Unknown);
    assert_eq!(r.permissions[1].status, commands::PermissionStatus::Granted);
    assert_eq!(r.permissions[1].settings_url.as_deref(), Some("x"));
    assert_eq!(diag.settings_url_for("b").as_deref(), Some("x"));
    assert_eq!(diag.settings_url_for("a"), None);
    assert_eq!(diag.settings_url_for("c"), None);
}

#[test]
fn command_line_server_settings_win() {
    let file = || Some(ServerConfig { url: "http://file".to_string(), key: "filekey".to_string() });
    let c = resolve_server_config(Some("http://cli".to_string()), None, file()).ok().unwrap();
    assert_eq!((c.url.as_str(), c.key.as_str()), ("http://cli", "filekey"));
    let c = resolve_server_config(None, Some("clikey".to_string()), file()).ok().unwrap();
    assert_eq!((c.url.as_str(), c.key.as_str()), ("http://file", "clikey"));
    let c = resolve_server_config(None, None, file()).ok().unwrap();
    assert_eq!((c.url.as_str(), c.key.as_str()), ("http://file", "filekey"));
    let e = resolve_server_config(Some("http://cli".to_string()), None, None).err().unwrap();
    assert_eq!(e, ConfigError::MissingServer);
    assert_eq!(e.message(), "Server config required. Use --server and --key, or set in config file");
}

#[test]
fn methods_are_classified() {
    assert_eq!(classify_method(&obj(vec![("method", text("tools/list"))])), McpMethod::ToolsList);
    assert_eq!(classify_method(&obj(vec![("method", text("tools/call"))])), McpMethod::ToolsCall);
    assert_eq!(classify_method(&obj(vec![("method", text("resources/list"))])), McpMethod::ResourcesList);
    assert_eq!(classify_method(&obj(vec![("method", text("prompts/list"))])), McpMethod::PromptsList);
    assert_eq!(classify_method(&obj(vec![("method", text("initialize"))])), McpMethod::Other);
    assert_eq!(classify_method(&obj(vec![])), McpMethod::Other);
}

#[test]
fn tool_calls_are_routed_or_refused() {
    let mut m = McpProxyManager::new(vec![("fs".to_string(), stdio("fs-server"))]);
    m.record_tools("fs", &vec!["read".to_string()]);
    m.record_tools("gone", &vec!["orphan".to_string()]);

    let call = |name: Option<&str>| match name {
        Some(n) => obj(vec![("params", obj(vec![("name", text(n))]))]),
        None => obj(vec![("params", obj(vec![]))]),
    };
    assert_eq!(m.route_tool_call(&call(Some("read"))).ok().unwrap(), "fs");
    let e = m.route_tool_call(&call(None)).err().unwrap();
    assert_eq!((e.code, e.message.as_str()), (-32602, "Missing tool name"));
    let e = m.route_tool_call(&call(Some("write"))).err().unwrap();
    assert_eq!((e.code, e.message.as_str()), (-32601, "Unknown tool: write"));
    let e = m.route_tool_call(&call(Some("orphan"))).err().unwrap();
    assert_eq!((e.code, e.message.as_str()), (-32603, "Server 'gone' not found"));
}

#[test]
fn later_listings_win_and_restarts_forget_clients() {
    let mut m = McpProxyManager::new(vec![("a".to_string(), stdio("x")), ("b".to_string(), stdio("y"))]);
    m.record_tools("a", &vec!["t".to_string()]);
    m.record_tools("b", &vec!["t".to_string()]);
    let payload = obj(vec![("params", obj(vec![("name", text("t"))]))]);
    assert_eq!(m.route_tool_call(&payload).ok().unwrap(), "b");

    assert!(matches!(m.client_plan("a", &stdio("x")), ClientPlan::Spawn));
    m.record_client("a");
    assert!(matches!(m.client_plan("a", &stdio("x")), ClientPlan::Reuse));
    let status = m.get_status();
    assert_eq!(status.len(), 2);
    assert!(status.iter().any(|(n, s)| n == "a" && s.running));
    assert!(status.iter().any(|(n, s)| n == "b" && !s.running && s.error.is_none()));
    m.restart_server("a");
    assert!(matches!(m.client_plan("a", &stdio("x")), ClientPlan::Spawn));
    match m.client_plan("c", &no_command()) {
        ClientPlan::Fail(e) => assert_eq!(e, "No command specified"),
        _ => panic!("a server without command cannot start"),
    }
    assert_eq!(m.stdio_servers(), vec!["a".to_string(), "b".to_string()]);
}

#[test]
fn other_methods_are_refused() {
    let none = McpProxyManager::new(vec![]);
    let r = none.forward_to_first(7);
    let e = r.error.unwrap();
    assert_eq!((r.correlation_id, e.code, e.message.as_str()), (7, -32600, "No MCP server configured"));
    let one = McpProxyManager::new(vec![("a".to_string(), stdio("x"))]);
    let e = one.forward_to_first(8).error.unwrap();
    assert_eq!((e.code, e.message.as_str()), (-32601, "Method not supported"));
    let http = McpProxyManager::new(vec![("a".to_string(), no_command())]);
    let e = http.forward_to_first(9).error.unwrap();
    assert_eq!((e.code, e.message.as_str()), (-32600, "Only stdio servers supported"));
}

#[test]
fn listings_and_tool_calls_are_answered() {
    let r = list_response(3, Some(JsonValue::Number(JsonNumber::PosInt(1))), "tools", vec![text("t")]);
    assert_eq!(
        r.payload.unwrap(),
        obj(vec![
            ("jsonrpc", text("2.0")),
            ("id", JsonValue::Number(JsonNumber::PosInt(1))),
            ("result", obj(vec![("tools", JsonValue::Array(vec![text("t")]))])),
        ])
    );
    let r = tool_call_response(4, None, Ok(text("done")));
    assert_eq!(
        r.payload.unwrap(),
        obj(vec![("jsonrpc", text("2.0")), ("id", JsonValue::Null), ("result", text("done"))])
    );
    let e = tool_call_response(4, None, Err(ToolCallFailure::InvalidParams("bad".to_string()))).error.unwrap();
    assert_eq!((e.code, e.message.as_str()), (-32602, "Invalid params: bad"));
    let e = tool_call_response(4, None, Err(ToolCallFailure::Call("boom".to_string()))).error.unwrap();
    assert_eq!((e.code, e.message.as_str()), (-32603, "tools/call failed: boom"));
    let e = tool_call_response(4, None, Err(ToolCallFailure::Client("spawn".to_string()))).error.unwrap();
    assert_eq!((e.code, e.message.as_str()), (-32603, "spawn"));
}

fn server_config(command: &str, enabled: bool) -> commands::McpServerConfig {
    commands::McpServerConfig { command: command.to_string(), args: vec!["-v".to_string()], env: vec![], enabled }
}

#[test]
fn only_enabled_servers_are_configured() {
    let r = enabled_configs(vec![
        ("a".to_string(), server_config("x", true)),
        ("b".to_string(), server_config("y", false)),
        ("c".to_string(), server_config("z", true)),
        ("c".to_string(), server_config("w", false)),
    ]);
    assert_eq!(r.len(), 1);
    assert_eq!(r[0].0, "a");
    assert_eq!(r[0].1.command.as_deref(), Some("x"));
    assert_eq!(r[0].1.args, vec!["-v".to_string()]);
}

#[test]
fn the_handler_answers_commands() {
    let mut h = AgentHandler::new();
    assert!(h.get_mcp_manager().is_none());
    assert!(h.get_mcp_status().servers.is_empty());
    assert!(!h.restart_mcp_server(commands::RestartMcpServer { name: "a".to_string() }).success);
    assert!(h.restart_agent().success);
    let r = h.update_mcp_config(commands::UpdateMcpConfig { servers: vec![("a".to_string(), server_config("x", true))] });
    assert!(r.success);
    let status = h.get_mcp_status();
    assert_eq!(status.servers.len(), 1);
    assert_eq!(status.servers[0].0, "a");
    assert!(!status.servers[0].1.running);
    assert!(h.restart_mcp_server(commands::RestartMcpServer { name: "a".to_string() }).success);
    let m = AgentHandler::not_initialized(5);
    let e = m.error.unwrap();
    assert_eq!((m.correlation_id, e.code, e.message.as_str()), (5, -32603, "MCP not initialized"));
}

fn connection() -> TunnelConnection {
    TunnelConnection::new(ServerConfig { url: "https://portal.example".to_string(), key: "k1".to_string() }, None)
}

#[test]
fn the_agent_connects_over_websockets() {
    assert_eq!(connection().ws_url(), "wss://portal.example");
    assert_eq!(connection().device_url(), "wss://portal.example/device?key=k1");
    let plain = TunnelConnection::new(ServerConfig { url: "http://h:8080".to_string(), key: "k".to_string() }, None);
    assert_eq!(plain.device_url(), "ws://h:8080/device?key=k");
    match connection().auth("0.3.0") {
        TunnelMessage::Auth(a) => {
            assert_eq!((a.token.as_str(), a.client_version.as_str()), ("k1", "0.3.0"));
            assert!(a.device_name.is_none());
        },
        _ => panic!("expected credentials"),
    }
    assert_eq!(diagnostics_event_name(), "diagnostics");
}

#[test]
fn legacy_messages_get_their_reactions() {
    let conn = connection();
    let mut h = AgentHandler::new();
    let diag = Diagnostics::check("linux", &vec![], false);
    let ping = TunnelMessage::Ping(PingMessage { timestamp: 10, sequence: 3 });
    match conn.handle_legacy_message(&mut h, ping, &diag, 99) {
        LegacyReaction::Send(TunnelMessage::Pong(p)) => assert_eq!((p.timestamp, p.sequence, p.server_timestamp), (10, 3, 99)),
        _ => panic!("a ping is answered"),
    }
    let req = McpRequestMessage { correlation_id: 42, payload: JsonValue::Null, target_server: None, timeout_ms: None };
    match conn.handle_legacy_message(&mut h, TunnelMessage::McpRequest(req), &diag, 0) {
        LegacyReaction::Send(TunnelMessage::McpResponse(r)) => {
            assert_eq!(r.correlation_id, 42);
            assert_eq!(r.error.unwrap().message, "MCP not initialized");
        },
        _ => panic!("no manager yet"),
    }
    let config = ConfigMessage { mcp_servers: vec![("a".to_string(), server_config("x", true))] };
    match conn.handle_legacy_message(&mut h, TunnelMessage::Config(config), &diag, 0) {
        LegacyReaction::Announce { diagnostics, ready } => {
            assert_eq!(diagnostics.os, "linux");
            assert!(ready.mcp_servers.is_empty());
        },
        _ => panic!("a configuration is announced"),
    }
    let req = McpRequestMessage { correlation_id: 43, payload: JsonValue::Null, target_server: None, timeout_ms: None };
    assert!(matches!(conn.handle_legacy_message(&mut h, TunnelMessage::McpRequest(req), &diag, 0), LegacyReaction::Forward(_)));
}
