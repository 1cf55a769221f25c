//! The messages that travel through a tunnel between a device and the server.
//!
//! Identifiers that the wire carries as UUIDs are held as their 128-bit
//! values; JSON payloads are `JsonValue`s.

use vstd::prelude::*;
use crate::commands::{DiagnosticsResponse, McpServerConfig, McpServerStatus};
use crate::error::TunnelError;
use crate::json::JsonValue;

verus! {

/// Every message of the tunnel protocol.
#[derive(Debug)]
pub enum TunnelMessage {
    Auth(AuthMessage),
    AuthResult(AuthResultMessage),
    McpRequest(McpRequestMessage),
    McpResponse(McpResponseMessage),
    Ping(PingMessage),
    Pong(PongMessage),
    Disconnect(DisconnectMessage),
    Config(ConfigMessage),
    Command(CommandMessage),
    Status(StatusMessage),
    Log(LogMessage),
}

/// The MCP server configurations the server hands a device after it authenticated.
#[derive(Debug)]
pub struct ConfigMessage {
    pub mcp_servers: Vec<(String, McpServerConfig)>,
}

/// A command from the server to an agent.
#[derive(Debug)]
pub struct CommandMessage {
    pub id: u128,
    pub command: AgentCommand,
}

/// What an agent can be told to do.
#[derive(Debug)]
pub enum AgentCommand {
    OpenSettings { permission: String },
    Restart,
    ReloadConfig,
    RestartMcpServer { name: String },
}

/// An agent's status report.
#[derive(Debug)]
pub struct StatusMessage {
    pub diagnostics: Option<DiagnosticsResponse>,
    pub mcp_servers: Vec<(String, McpServerStatus)>,
}

/// A log line an agent streams to the server.
#[derive(Debug)]
pub struct LogMessage {
    pub level: LogLevel,
    pub target: String,
    pub message: String,
    pub timestamp: u64,
}

/// Severity of a log line.
#[derive(Debug, Clone, Copy, PartialEq, Eq, Structural)]
pub enum LogLevel {
    Error,
    Warn,
    Info,
    Debug,
}

/// The first message of a device: its credentials.
#[derive(Debug)]
pub struct AuthMessage {
    pub token: String,
    pub client_version: String,
    pub device_name: Option<String>,
}

/// The server's answer to an `AuthMessage`.
#[derive(Debug)]
pub struct AuthResultMessage {
    pub success: bool,
    pub error: Option<String>,
    pub session_id: Option<String>,
}

impl AuthResultMessage {
    /// Authentication succeeded and opened session `session_id`.
    pub fn success(session_id: String) -> (m: AuthResultMessage)
        ensures
            m.success,
            m.error is None,
            m.session_id == Some(session_id),
    {
        AuthResultMessage { success: true, error: None, session_id: Some(session_id) }
    }

    /// Authentication failed for the reason `error`.
    pub fn failure(error: &str) -> (m: AuthResultMessage)
        ensures
            !m.success,
            m.error.deep_view() == Some(error@),
            m.session_id is None,
    {
        AuthResultMessage { success: false, error: Some(error.to_string()), session_id: None }
    }
}

/// An MCP request the server forwards to a device.
#[derive(Debug)]
pub struct McpRequestMessage {
    pub correlation_id: u128,
    pub payload: JsonValue,
    pub target_server: Option<String>,
    pub timeout_ms: Option<u64>,
}

/// A device's answer to an `McpRequestMessage`, carrying the same correlation id.
#[derive(Debug)]
pub struct McpResponseMessage {
    pub correlation_id: u128,
    pub payload: Option<JsonValue>,
    pub error: Option<TunnelError>,
}

impl McpResponseMessage {
    /// A successful answer.
    pub fn success(correlation_id: u128, payload: JsonValue) -> (m: McpResponseMessage)
        ensures
            m.correlation_id == correlation_id,
            m.payload == Some(payload),
            m.error is None,
    {
        McpResponseMessage { correlation_id, payload: Some(payload), error: None }
    }

    /// A failed answer.
    pub fn error(correlation_id: u128, error: TunnelError) -> (m: McpResponseMessage)
        ensures
            m.correlation_id == correlation_id,
            m.payload is None,
            m.error == Some(error),
    {
        McpResponseMessage { correlation_id, payload: None, error: Some(error) }
    }
}

/// A keepalive probe.
#[derive(Debug, Clone, Copy)]
pub struct PingMessage {
    pub timestamp: u64,
    pub sequence: u64,
}

/// The answer to a `PingMessage`.
#[derive(Debug, Clone, Copy)]
pub struct PongMessage {
    pub timestamp: u64,
    pub sequence: u64,
    pub server_timestamp: u64,
}

/// Notice that a tunnel is being closed.
#[derive(Debug)]
pub struct DisconnectMessage {
    pub reason: DisconnectReason,
    pub message: Option<String>,
}

/// Why a tunnel is closed.
#[derive(Debug, Clone, Copy, PartialEq, Eq, Structural)]
pub enum DisconnectReason {
    AuthFailed,
    TokenRevoked,
    ServerShutdown,
    ProtocolError,
    Timeout,
    ClientRequest,
}

} // verus!
