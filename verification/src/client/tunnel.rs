//! The tunnel client's connection: where it connects, what it
//! authenticates with, and how it meets the server's messages.

use vstd::prelude::*;
use vstd::string::StringExecFns;
use crate::client::config::TunnelServerConfig;
use crate::protocol::{McpRequestMessage, PongMessage, TunnelMessage};
use crate::session::{auth_message, pong_for};

verus! {

/// What the client does with a message from the server.
#[derive(Debug)]
pub enum ClientReaction {
    /// Hand the request to the MCP server manager, and send its answer.
    Forward(McpRequestMessage),
    /// Send this keepalive answer.
    Pong(PongMessage),
    /// Nothing to send.
    Nothing,
}

/// The client's connection to its tunnel server.
pub struct TunnelConnection {
    pub server_config: TunnelServerConfig,
    pub device_name: Option<String>,
}

impl TunnelConnection {
    /// A connection to `server_config` under the device name given, if any.
    pub fn new(server_config: TunnelServerConfig, device_name: Option<String>) -> (t: Self)
        ensures
            t.server_config == server_config,
            t.device_name == device_name,
    {
        TunnelConnection { server_config, device_name }
    }

    /// The address the client connects to: the server address, then `/tunnel`.
    pub fn tunnel_url(&self) -> (u: String)
        ensures
            u@ == self.server_config.url@ + "/tunnel"@,
    {
        let mut u = self.server_config.url.as_str().to_string();
        u.append("/tunnel");
        u
    }

    /// The credentials the client opens its session with: its token, its
    /// version and its device name.
    pub fn auth(&self, client_version: &str) -> (m: TunnelMessage)
        ensures
            m matches TunnelMessage::Auth(a) && a.token@ == self.server_config.token@
                && a.client_version@ == client_version@ && a.device_name == self.device_name,
    {
        let name = match &self.device_name {
            Some(n) => Some(n.clone()),
            None => None,
        };
        auth_message(self.server_config.token.as_str(), client_version, name)
    }

    /// How the client meets a message: an MCP request is forwarded to its
    /// servers, a ping is answered with a pong carrying the clock
    /// `now_secs`, and anything else, a disconnect notice among them, is
    /// only noted.
    pub fn handle_message(&self, msg: TunnelMessage, now_secs: u64) -> (r: ClientReaction)
        ensures
            match msg {
                TunnelMessage::McpRequest(req) => r == ClientReaction::Forward(req),
                TunnelMessage::Ping(p) => r matches ClientReaction::Pong(q)
                    && q.timestamp == p.timestamp && q.sequence == p.sequence && q.server_timestamp == now_secs,
                _ => r is Nothing,
            },
    {
        match msg {
            TunnelMessage::McpRequest(req) => ClientReaction::Forward(req),
            TunnelMessage::Ping(p) => ClientReaction::Pong(pong_for(p, now_secs)),
            _ => ClientReaction::Nothing,
        }
    }
}

} // verus!
