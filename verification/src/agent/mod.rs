//! The device agent: its configuration, system diagnostics, self-update
//! rules, MCP server management and tunnel reactions.

pub mod config;
pub mod diagnostics;
pub mod mcp_proxy;
pub mod handler;
pub mod tunnel;
pub mod imessage;
pub mod native_tools;

pub mod update;
