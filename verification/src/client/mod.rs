//! The tunnel client: a device program that exposes local MCP servers to
//! the tunnel server over one connection.

pub mod config;
pub mod mcp_proxy;
pub mod tunnel;
