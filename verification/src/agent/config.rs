//! The agent's configuration.

use vstd::prelude::*;

verus! {

/// The agent configuration file.
#[derive(Debug)]
pub struct AgentConfig {
    pub device_name: Option<String>,
    pub server: Option<ServerConfig>,
}

impl Default for AgentConfig {
    fn default() -> (c: Self)
        ensures
            c.device_name is None,
            c.server is None,
    {
        AgentConfig { device_name: None, server: None }
    }
}

/// The server an agent connects to, and the device key it presents.
#[derive(Debug)]
pub struct ServerConfig {
    pub url: String,
    pub key: String,
}

/// How the agent starts a local MCP server.
#[derive(Debug)]
pub struct McpServerConfig {
    pub command: Option<String>,
    pub args: Vec<String>,
    pub env: Vec<(String, String)>,
}

impl McpServerConfig {
    /// The server is started as a child process speaking over stdio.
    pub fn is_stdio(&self) -> (b: bool)
        ensures
            b == self.command is Some,
    {
        self.command.is_some()
    }
}

/// The agent was given no server to connect to.
#[derive(Debug, Clone, Copy, PartialEq, Eq, Structural)]
pub enum ConfigError {
    MissingServer,
}

impl ConfigError {
    /// The message the agent stops with.
    pub fn message(&self) -> (m: &'static str)
        ensures
            m@ == "Server config required. Use --server and --key, or set in config file"@,
    {
        "Server config required. Use --server and --key, or set in config file"
    }
}

/// The server the agent connects to: a server address and key given on
/// the command line win over those of the configuration file, each on
/// its own; without both an address and a key the agent cannot start.
pub fn resolve_server_config(server: Option<String>, key: Option<String>, file: Option<ServerConfig>) -> (r:
    Result<ServerConfig, ConfigError>)
    ensures
        match (server, key, file) {
            (Some(u), Some(k), _) => r matches Ok(c) && c.url == u && c.key == k,
            (Some(u), None, Some(f)) => r matches Ok(c) && c.url == u && c.key == f.key,
            (None, Some(k), Some(f)) => r matches Ok(c) && c.url == f.url && c.key == k,
            (None, None, Some(f)) => r matches Ok(c) && c.url == f.url && c.key == f.key,
            _ => r == Err::<ServerConfig, ConfigError>(ConfigError::MissingServer),
        },
{
    match (server, key, file) {
        (Some(url), Some(key), _) => Ok(ServerConfig { url, key }),
        (Some(url), None, Some(cfg)) => Ok(ServerConfig { url, key: cfg.key }),
        (None, Some(key), Some(cfg)) => Ok(ServerConfig { url: cfg.url, key }),
        (None, None, Some(cfg)) => Ok(cfg),
        _ => Err(ConfigError::MissingServer),
    }
}

} // verus!
