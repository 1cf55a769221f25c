//! The tunnel client's configuration.

use vstd::prelude::*;

verus! {

/// The client configuration file.
#[derive(Debug)]
pub struct ClientConfig {
    pub device_name: Option<String>,
    pub tunnel_server: Option<TunnelServerConfig>,
    pub mcp_servers: Vec<(String, McpServerConfig)>,
}

impl Default for ClientConfig {
    fn default() -> (c: Self)
        ensures
            c.device_name is None,
            c.tunnel_server is None,
            c.mcp_servers@.len() == 0,
    {
        ClientConfig { device_name: None, tunnel_server: None, mcp_servers: Vec::new() }
    }
}

/// The tunnel server the client connects to, and its token.
#[derive(Debug)]
pub struct TunnelServerConfig {
    pub url: String,
    pub token: String,
}

/// A local MCP server: a command to start, or an HTTP address.
#[derive(Debug)]
pub struct McpServerConfig {
    pub command: Option<String>,
    pub args: Vec<String>,
    pub env: Vec<(String, String)>,
    pub url: Option<String>,
}

impl McpServerConfig {
    /// The server is started as a child process speaking over stdio.
    pub fn is_stdio(&self) -> (b: bool)
        ensures
            b == self.command is Some,
    {
        self.command.is_some()
    }

    /// The server is reached over HTTP.
    pub fn is_http(&self) -> (b: bool)
        ensures
            b == self.url is Some,
    {
        self.url.is_some()
    }
}

/// The client gave no tunnel server to connect to.
#[derive(Debug, Clone, Copy, PartialEq, Eq, Structural)]
pub enum TunnelConfigError {
    MissingServer,
}

impl TunnelConfigError {
    /// The message the client stops with.
    pub fn message(&self) -> (m: &'static str)
        ensures
            m@ == "Tunnel server config required. Set tunnelServer in config or use --server-url and --token"@,
    {
        "Tunnel server config required. Set tunnelServer in config or use --server-url and --token"
    }
}

/// The tunnel server the client connects to: an address and a token given
/// on the command line win over those of the configuration file, each on
/// its own; without both the client cannot start.
pub fn resolve_tunnel_config(url: Option<String>, token: Option<String>, file: Option<TunnelServerConfig>) -> (r:
    Result<TunnelServerConfig, TunnelConfigError>)
    ensures
        match (url, token, file) {
            (Some(u), Some(t), _) => r matches Ok(c) && c.url == u && c.token == t,
            (Some(u), None, Some(f)) => r matches Ok(c) && c.url == u && c.token == f.token,
            (None, Some(t), Some(f)) => r matches Ok(c) && c.url == f.url && c.token == t,
            (None, None, Some(f)) => r matches Ok(c) && c.url == f.url && c.token == f.token,
            _ => r == Err::<TunnelServerConfig, TunnelConfigError>(TunnelConfigError::MissingServer),
        },
{
    match (url, token, file) {
        (Some(url), Some(token), _) => Ok(TunnelServerConfig { url, token }),
        (Some(url), None, Some(cfg)) => Ok(TunnelServerConfig { url, token: cfg.token }),
        (None, Some(token), Some(cfg)) => Ok(TunnelServerConfig { url: cfg.url, token }),
        (None, None, Some(cfg)) => Ok(cfg),
        _ => Err(TunnelConfigError::MissingServer),
    }
}

} // verus!
