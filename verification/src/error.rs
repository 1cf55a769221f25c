//! Error values carried inside tunnel messages.

use vstd::prelude::*;
use vstd::string::StringExecFns;

verus! {

/// JSON-RPC code for an internal error.
pub const CODE_INTERNAL: i32 = -32603;
/// Code used when a device did not answer in time.
pub const CODE_TIMEOUT: i32 = -32000;
/// Code used when no device is reachable.
pub const CODE_DEVICE_OFFLINE: i32 = -32001;

/// An error reported by the far side of a tunnel.
#[derive(Debug)]
pub struct TunnelError {
    pub code: i32,
    pub message: String,
}

impl TunnelError {
    /// An error with the given code and message.
    pub fn new(code: i32, message: &str) -> (e: TunnelError)
        ensures
            e.code == code,
            e.message@ == message@,
    {
        TunnelError { code, message: message.to_string() }
    }

    /// An internal error.
    pub fn internal(message: &str) -> (e: TunnelError)
        ensures
            e.code == CODE_INTERNAL,
            e.message@ == message@,
    {
        Self::new(CODE_INTERNAL, message)
    }

    /// A timeout error.
    pub fn timeout(message: &str) -> (e: TunnelError)
        ensures
            e.code == CODE_TIMEOUT,
            e.message@ == message@,
    {
        Self::new(CODE_TIMEOUT, message)
    }

    /// A device-offline error.
    pub fn device_offline(message: &str) -> (e: TunnelError)
        ensures
            e.code == CODE_DEVICE_OFFLINE,
            e.message@ == message@,
    {
        Self::new(CODE_DEVICE_OFFLINE, message)
    }
}

/// Why a tunnel client failed.
#[derive(Debug)]
pub enum ClientError {
    Connection(String),
    Auth(String),
    Protocol(String),
    Timeout(String),
    McpServer(String),
    Config(String),
    /// An I/O error, held as its message.
    Io(String),
}

/// The message of a client error.
pub open spec fn client_error_text(e: ClientError) -> Seq<char> {
    match e {
        ClientError::Connection(m) => "Connection failed: "@ + m@,
        ClientError::Auth(m) => "Authentication failed: "@ + m@,
        ClientError::Protocol(m) => "Protocol error: "@ + m@,
        ClientError::Timeout(m) => "Timeout: "@ + m@,
        ClientError::McpServer(m) => "MCP server error: "@ + m@,
        ClientError::Config(m) => "Configuration error: "@ + m@,
        ClientError::Io(m) => "IO error: "@ + m@,
    }
}

impl ClientError {
    /// The error's message.
    pub fn message(&self) -> (s: String)
        ensures
            s@ == client_error_text(*self),
    {
        let (prefix, m) = match self {
            ClientError::Connection(m) => ("Connection failed: ", m),
            ClientError::Auth(m) => ("Authentication failed: ", m),
            ClientError::Protocol(m) => ("Protocol error: ", m),
            ClientError::Timeout(m) => ("Timeout: ", m),
            ClientError::McpServer(m) => ("MCP server error: ", m),
            ClientError::Config(m) => ("Configuration error: ", m),
            ClientError::Io(m) => ("IO error: ", m),
        };
        let mut s = prefix.to_string();
        s.append(m.as_str());
        s
    }
}

/// Why the tunnel server refused or failed a request.
#[derive(Debug)]
pub enum ServerError {
    InvalidToken,
    DeviceOffline(String),
    RequestTimeout,
    RateLimitExceeded,
    Internal(String),
}

/// The message of a server error.
pub open spec fn server_error_text(e: ServerError) -> Seq<char> {
    match e {
        ServerError::InvalidToken => "Invalid token"@,
        ServerError::DeviceOffline(m) => "Device offline: "@ + m@,
        ServerError::RequestTimeout => "Request timeout"@,
        ServerError::RateLimitExceeded => "Rate limit exceeded"@,
        ServerError::Internal(m) => "Internal error: "@ + m@,
    }
}

impl ServerError {
    /// The error's message.
    pub fn message(&self) -> (s: String)
        ensures
            s@ == server_error_text(*self),
    {
        match self {
            ServerError::InvalidToken => "Invalid token".to_string(),
            ServerError::DeviceOffline(m) => {
                let mut s = "Device offline: ".to_string();
                s.append(m.as_str());
                s
            },
            ServerError::RequestTimeout => "Request timeout".to_string(),
            ServerError::RateLimitExceeded => "Rate limit exceeded".to_string(),
            ServerError::Internal(m) => {
                let mut s = "Internal error: ".to_string();
                s.append(m.as_str());
                s
            },
        }
    }
}

} // verus!
