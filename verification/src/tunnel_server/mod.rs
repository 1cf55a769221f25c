//! The tunnel server: devices keep a tunnel open to it under a token, and
//! MCP clients reach a device by posting to the token's endpoint.

pub mod offline;
pub mod mcp_handler;
pub mod session;
