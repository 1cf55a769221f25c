//! Portal: the verified core of an MCP tunnelling gateway.
//!
//! Devices run an agent that keeps a websocket tunnel open to a gateway
//! server; MCP clients talk to the gateway, which routes each request to a
//! connected device and hands the device's answer back.  This crate holds
//! the decisions of that system: the protocol values, request bookkeeping,
//! the connection registry, tool routing, configuration defaults and the
//! small text formats the components exchange.

pub mod error;
pub mod json;
pub mod text;
pub mod assoc;
pub mod server;
pub mod protocol;
pub mod commands;
pub mod transport;
pub mod jsonrpc;
pub mod tokens;
pub mod session;
pub mod http;
pub mod agent;
pub mod client;
pub mod tunnel_server;
