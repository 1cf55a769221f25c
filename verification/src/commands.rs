//! Commands (request and response) and events (fire and forget) that the
//! server and its agents exchange, and the names they travel under.

use vstd::prelude::*;
use crate::json::JsonValue;
use crate::protocol::LogLevel;

verus! {

/// Asks an agent for its diagnostics.
#[derive(Debug, Clone, Copy)]
pub struct GetDiagnostics;

/// An agent's diagnostics: its operating system and permissions.
#[derive(Debug)]
pub struct DiagnosticsResponse {
    pub os: String,
    pub permissions: Vec<Permission>,
}

/// A system permission and whether it is granted.
#[derive(Debug)]
pub struct Permission {
    pub name: String,
    pub status: PermissionStatus,
    pub settings_url: Option<String>,
}

/// Whether a permission is granted.
#[derive(Debug, Clone, Copy, PartialEq, Eq, Structural)]
pub enum PermissionStatus {
    Granted,
    Denied,
    Unknown,
}

/// Asks an agent to open the system settings of a permission.
#[derive(Debug)]
pub struct OpenSettings {
    pub permission: String,
}

/// Whether the settings could be opened.
#[derive(Debug, Clone, Copy)]
pub struct OpenSettingsResponse {
    pub success: bool,
}

/// Asks an agent for the status of its MCP servers.
#[derive(Debug, Clone, Copy)]
pub struct GetMcpStatus;

/// The status of each MCP server of an agent, by name.
#[derive(Debug)]
pub struct McpStatusResponse {
    pub servers: Vec<(String, McpServerStatus)>,
}

/// The status of one MCP server.
#[derive(Debug)]
pub struct McpServerStatus {
    pub running: bool,
    pub error: Option<String>,
    pub pid: Option<u32>,
    pub tools_count: usize,
    pub logs: Vec<String>,
}

/// Replaces an agent's MCP server configuration.
#[derive(Debug)]
pub struct UpdateMcpConfig {
    pub servers: Vec<(String, McpServerConfig)>,
}

/// How to start one MCP server.
#[derive(Debug)]
pub struct McpServerConfig {
    pub command: String,
    pub args: Vec<String>,
    pub env: Vec<(String, String)>,
    pub enabled: bool,
}

/// The value `enabled` takes when a configuration leaves it out.
pub fn default_true() -> (b: bool)
    ensures
        b,
{
    true
}

/// Whether the configuration was taken.
#[derive(Debug, Clone, Copy)]
pub struct UpdateMcpConfigResponse {
    pub success: bool,
}

/// Asks an agent to restart itself.
#[derive(Debug, Clone, Copy)]
pub struct RestartAgent;

/// Whether the restart was started.
#[derive(Debug, Clone, Copy)]
pub struct RestartAgentResponse {
    pub success: bool,
}

/// Asks an agent to restart one MCP server.
#[derive(Debug)]
pub struct RestartMcpServer {
    pub name: String,
}

/// Whether the restart was started.
#[derive(Debug, Clone, Copy)]
pub struct RestartMcpServerResponse {
    pub success: bool,
}

/// An MCP request an agent sends to the server.
#[derive(Debug)]
pub struct McpRequest {
    pub target_server: Option<String>,
    pub payload: JsonValue,
}

/// The server's answer to an `McpRequest`.
#[derive(Debug)]
pub struct McpResponse {
    pub payload: JsonValue,
}

/// A log line sent as an event.
#[derive(Debug)]
pub struct LogEvent {
    pub level: LogLevel,
    pub target: String,
    pub message: String,
}

/// An MCP server of an agent changed status.
#[derive(Debug)]
pub struct McpServerStatusChanged {
    pub name: String,
    pub status: McpServerStatus,
}

/// The agent is ready: it authenticated and applied its configuration.
#[derive(Debug)]
pub struct AgentReady {
    pub mcp_servers: Vec<String>,
}

/// The commands an agent handles.
#[derive(Debug, Clone, Copy, PartialEq, Eq, Structural)]
pub enum AgentCommandKind {
    GetDiagnostics,
    OpenSettings,
    GetMcpStatus,
    UpdateMcpConfig,
    RestartAgent,
    RestartMcpServer,
}

/// The commands the server handles.
#[derive(Debug, Clone, Copy, PartialEq, Eq, Structural)]
pub enum ServerCommandKind {
    McpRequest,
}

/// The events the server handles.
#[derive(Debug, Clone, Copy, PartialEq, Eq, Structural)]
pub enum ServerEventKind {
    Log,
    McpServerStatusChanged,
    AgentReady,
}

/// The name an agent command travels under.
pub open spec fn agent_command_name(k: AgentCommandKind) -> Seq<char> {
    match k {
        AgentCommandKind::GetDiagnostics => "get_diagnostics"@,
        AgentCommandKind::OpenSettings => "open_settings"@,
        AgentCommandKind::GetMcpStatus => "get_mcp_status"@,
        AgentCommandKind::UpdateMcpConfig => "update_mcp_config"@,
        AgentCommandKind::RestartAgent => "restart_agent"@,
        AgentCommandKind::RestartMcpServer => "restart_mcp_server"@,
    }
}

/// The name a server command travels under.
pub open spec fn server_command_name(k: ServerCommandKind) -> Seq<char> {
    match k {
        ServerCommandKind::McpRequest => "mcp_request"@,
    }
}

/// The name a server event travels under.
pub open spec fn server_event_name(k: ServerEventKind) -> Seq<char> {
    match k {
        ServerEventKind::Log => "log"@,
        ServerEventKind::McpServerStatusChanged => "mcp_server_status_changed"@,
        ServerEventKind::AgentReady => "agent_ready"@,
    }
}

/// No two agent commands travel under the same name, so a command's name
/// leads back to that command.
pub proof fn law_agent_command_names_distinct(a: AgentCommandKind, b: AgentCommandKind)
    ensures
        agent_command_name(a) == agent_command_name(b) ==> a == b,
{
    reveal_strlit("get_diagnostics");
    reveal_strlit("open_settings");
    reveal_strlit("get_mcp_status");
    reveal_strlit("update_mcp_config");
    reveal_strlit("restart_agent");
    reveal_strlit("restart_mcp_server");
    if agent_command_name(a) == agent_command_name(b) && a != b {
        let x = agent_command_name(a);
        let y = agent_command_name(b);
        assert(x.len() == y.len());
        assert(x[0] == y[0]);
        assert(x[1] == y[1]);
        assert(x[2] == y[2]);
        assert(x[3] == y[3]);
        assert(x[4] == y[4]);
        assert(x[5] == y[5]);
        assert(x[8] == y[8]);
        assert(x[12] == y[12]);
    }
}

/// No two server events travel under the same name.
pub proof fn law_server_event_names_distinct(a: ServerEventKind, b: ServerEventKind)
    ensures
        server_event_name(a) == server_event_name(b) ==> a == b,
{
    reveal_strlit("log");
    reveal_strlit("mcp_server_status_changed");
    reveal_strlit("agent_ready");
    if server_event_name(a) == server_event_name(b) && a != b {
        let x = server_event_name(a);
        let y = server_event_name(b);
        assert(x.len() == y.len());
        assert(x[0] == y[0]);
    }
}

impl AgentCommandKind {
    /// The command's name on the wire.
    pub fn name(&self) -> (s: &'static str)
        ensures
            s@ == agent_command_name(*self),
    {
        match self {
            AgentCommandKind::GetDiagnostics => "get_diagnostics",
            AgentCommandKind::OpenSettings => "open_settings",
            AgentCommandKind::GetMcpStatus => "get_mcp_status",
            AgentCommandKind::UpdateMcpConfig => "update_mcp_config",
            AgentCommandKind::RestartAgent => "restart_agent",
            AgentCommandKind::RestartMcpServer => "restart_mcp_server",
        }
    }
}

impl ServerEventKind {
    /// The event's name on the wire.
    pub fn name(&self) -> (s: &'static str)
        ensures
            s@ == server_event_name(*self),
    {
        match self {
            ServerEventKind::Log => "log",
            ServerEventKind::McpServerStatusChanged => "mcp_server_status_changed",
            ServerEventKind::AgentReady => "agent_ready",
        }
    }
}

/// A command: a request whose answer is `Response`, sent under a fixed name.
pub trait Command {
    type Response;

    /// The name the command travels under, as text.
    spec fn wire_name() -> Seq<char>;

    /// The name the command travels under.
    fn command_name() -> (s: &'static str)
        ensures
            s@ == Self::wire_name(),
    ;
}

/// An event: a notification sent under a fixed name.
pub trait Event {
    /// The name the event travels under, as text.
    spec fn wire_name() -> Seq<char>;

    /// The name the event travels under.
    fn event_name() -> (s: &'static str)
        ensures
            s@ == Self::wire_name(),
    ;
}

impl Command for GetDiagnostics {
    type Response = DiagnosticsResponse;

    open spec fn wire_name() -> Seq<char> {
        agent_command_name(AgentCommandKind::GetDiagnostics)
    }

    fn command_name() -> &'static str {
        "get_diagnostics"
    }
}

impl Command for OpenSettings {
    type Response = OpenSettingsResponse;

    open spec fn wire_name() -> Seq<char> {
        agent_command_name(AgentCommandKind::OpenSettings)
    }

    fn command_name() -> &'static str {
        "open_settings"
    }
}

impl Command for GetMcpStatus {
    type Response = McpStatusResponse;

    open spec fn wire_name() -> Seq<char> {
        agent_command_name(AgentCommandKind::GetMcpStatus)
    }

    fn command_name() -> &'static str {
        "get_mcp_status"
    }
}

impl Command for UpdateMcpConfig {
    type Response = UpdateMcpConfigResponse;

    open spec fn wire_name() -> Seq<char> {
        agent_command_name(AgentCommandKind::UpdateMcpConfig)
    }

    fn command_name() -> &'static str {
        "update_mcp_config"
    }
}

impl Command for RestartAgent {
    type Response = RestartAgentResponse;

    open spec fn wire_name() -> Seq<char> {
        agent_command_name(AgentCommandKind::RestartAgent)
    }

    fn command_name() -> &'static str {
        "restart_agent"
    }
}

impl Command for RestartMcpServer {
    type Response = RestartMcpServerResponse;

    open spec fn wire_name() -> Seq<char> {
        agent_command_name(AgentCommandKind::RestartMcpServer)
    }

    fn command_name() -> &'static str {
        "restart_mcp_server"
    }
}

impl Command for McpRequest {
    type Response = McpResponse;

    open spec fn wire_name() -> Seq<char> {
        server_command_name(ServerCommandKind::McpRequest)
    }

    fn command_name() -> &'static str {
        "mcp_request"
    }
}

impl Event for LogEvent {
    open spec fn wire_name() -> Seq<char> {
        server_event_name(ServerEventKind::Log)
    }

    fn event_name() -> &'static str {
        "log"
    }
}

impl Event for McpServerStatusChanged {
    open spec fn wire_name() -> Seq<char> {
        server_event_name(ServerEventKind::McpServerStatusChanged)
    }

    fn event_name() -> &'static str {
        "mcp_server_status_changed"
    }
}

impl Event for AgentReady {
    open spec fn wire_name() -> Seq<char> {
        server_event_name(ServerEventKind::AgentReady)
    }

    fn event_name() -> &'static str {
        "agent_ready"
    }
}

} // verus!
