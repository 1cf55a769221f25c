//! The records the server keeps: users, their gateway, and the devices of
//! a gateway with the MCP servers each device runs.

use vstd::prelude::*;
use crate::commands;

verus! {

/// A dashboard user.
#[derive(Debug)]
pub struct User {
    pub id: String,
    pub clerk_user_id: String,
    pub email: String,
    /// Seconds since the Unix epoch.
    pub created_at: i64,
}

/// A user's gateway: the MCP endpoint that reaches the user's devices.
#[derive(Debug)]
pub struct Gateway {
    pub id: String,
    pub user_id: String,
    pub key: String,
    pub name: Option<String>,
    /// Seconds since the Unix epoch.
    pub created_at: i64,
}

/// A device registered under a gateway.
#[derive(Debug)]
pub struct Device {
    pub id: String,
    pub gateway_id: String,
    pub key: String,
    pub name: String,
    pub alias: String,
    pub mcp_config: McpConfig,
    /// Seconds since the Unix epoch.
    pub created_at: i64,
}

/// The MCP servers configured for a device, by name.
#[derive(Debug)]
pub struct McpConfig {
    pub servers: Vec<(String, McpServerConfig)>,
}

/// How to start one MCP server on a device.
#[derive(Debug)]
pub struct McpServerConfig {
    pub command: String,
    pub args: Vec<String>,
    pub env: Vec<(String, String)>,
    pub enabled: bool,
}

/// A device found by its key, with its gateway's key.
#[derive(Debug)]
pub struct DeviceWithGateway {
    pub device: Device,
    pub gateway_key: String,
}

/// The value `enabled` takes when a stored configuration leaves it out.
pub fn default_true() -> (b: bool)
    ensures
        b,
{
    true
}

impl Default for McpConfig {
    fn default() -> (c: Self)
        ensures
            c.servers@.len() == 0,
    {
        McpConfig { servers: Vec::new() }
    }
}

/// A stored server configuration and the one sent to an agent say the same.
pub open spec fn same_config(s: McpServerConfig, c: commands::McpServerConfig) -> bool {
    s.command == c.command && s.args == c.args && s.env == c.env && s.enabled == c.enabled
}

/// The configuration a device is sent when it connects: each stored
/// server configuration, in order, under its name.
pub fn config_for_agent(config: McpConfig) -> (r: Vec<(String, commands::McpServerConfig)>)
    ensures
        r@.len() == config.servers@.len(),
        forall|i: int|
            0 <= i < r@.len() ==> (#[trigger] r@[i]).0 == config.servers@[i].0 && same_config(
                config.servers@[i].1,
                r@[i].1,
            ),
{
    let ghost src = config.servers@;
    let mut rest = config.servers;
    let mut out: Vec<(String, commands::McpServerConfig)> = Vec::new();
    assert(rest@ =~= src.skip(0));
    while rest.len() > 0
        invariant
            out@.len() + rest@.len() == src.len(),
            rest@ == src.skip(out@.len() as int),
            forall|i: int|
                0 <= i < out@.len() ==> (#[trigger] out@[i]).0 == src[i].0 && same_config(src[i].1, out@[i].1),
        decreases rest.len(),
    {
        let (name, cfg) = rest.remove(0);
        let ghost k = out@.len() as int;
        assert(src[k] == (name, cfg));
        out.push(
            (
                name,
                commands::McpServerConfig {
                    command: cfg.command,
                    args: cfg.args,
                    env: cfg.env,
                    enabled: cfg.enabled,
                },
            ),
        );
        assert(rest@ =~= src.skip(out@.len() as int));
    }
    out
}

} // verus!
