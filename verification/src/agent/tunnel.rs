//! The agent's tunnel to the server: where it connects, what it
//! authenticates with, and how it meets the messages of the legacy
//! protocol.  The socket, the clock and the probes are outside; each
//! reaction here says what the agent sends back.

use vstd::prelude::*;
use vstd::string::StringExecFns;
use crate::agent::config::ServerConfig;
use crate::agent::diagnostics::{Diagnostics, reported_status};
use crate::agent::handler::{AgentHandler, enabled_map};
use crate::commands::{AgentReady, DiagnosticsResponse, UpdateMcpConfig};
use crate::protocol::{McpRequestMessage, McpResponseMessage, TunnelMessage};
use crate::session::{auth_message, pong_for, replace_all, replace_text};

verus! {

/// The websocket address of a server address: `https://` becomes
/// `wss://`, then `http://` becomes `ws://`.
pub open spec fn ws_url_spec(url: Seq<char>) -> Seq<char> {
    replace_all(replace_all(url, "https://"@, "wss://"@), "http://"@, "ws://"@)
}

/// The address a device connects to: the websocket address, then
/// `/device?key=` and the device key.
pub open spec fn device_url_spec(url: Seq<char>, key: Seq<char>) -> Seq<char> {
    ws_url_spec(url) + "/device?key="@ + key
}

/// The name of the event that carries the agent's diagnostics.
pub open spec fn diagnostics_event() -> Seq<char> {
    "diagnostics"@
}

/// The refusal of the MCP request `id` for want of a configuration.
pub open spec fn not_initialized_answer(m: McpResponseMessage, id: u128) -> bool {
    &&& m.correlation_id == id
    &&& m.payload is None
    &&& m.error matches Some(e) && e.code == -32603 && e.message@ == "MCP not initialized"@
}

/// What the agent does with a message of the legacy protocol.
#[derive(Debug)]
pub enum LegacyReaction {
    /// The configuration was applied: send the diagnostics event, then the
    /// `agent_ready` event.
    Announce { diagnostics: DiagnosticsResponse, ready: AgentReady },
    /// Send this message.
    Send(TunnelMessage),
    /// Hand the request to the MCP server manager and send back its answer.
    Forward(McpRequestMessage),
    /// Nothing to send.
    Nothing,
}

/// The agent's connection to its server.
pub struct TunnelConnection {
    pub server_config: ServerConfig,
    pub device_name: Option<String>,
}

impl TunnelConnection {
    /// A connection to `server_config` under the device name given, if any.
    pub fn new(server_config: ServerConfig, device_name: Option<String>) -> (t: Self)
        ensures
            t.server_config == server_config,
            t.device_name == device_name,
    {
        TunnelConnection { server_config, device_name }
    }

    /// The websocket address of the server.
    pub fn ws_url(&self) -> (u: String)
        ensures
            u@ == ws_url_spec(self.server_config.url@),
    {
        proof {
            reveal_strlit("https://");
            reveal_strlit("http://");
        }
        let secure = replace_text(self.server_config.url.as_str(), "https://", "wss://");
        replace_text(secure.as_str(), "http://", "ws://")
    }

    /// The address the agent connects to.
    pub fn device_url(&self) -> (u: String)
        ensures
            u@ == device_url_spec(self.server_config.url@, self.server_config.key@),
    {
        let mut u = self.ws_url();
        u.append("/device?key=");
        u.append(self.server_config.key.as_str());
        u
    }

    /// The credentials the agent opens its session with: its key, its
    /// version and its device name.
    pub fn auth(&self, client_version: &str) -> (m: TunnelMessage)
        ensures
            m matches TunnelMessage::Auth(a) && a.token@ == self.server_config.key@
                && a.client_version@ == client_version@ && a.device_name == self.device_name,
    {
        let name = match &self.device_name {
            Some(n) => Some(n.clone()),
            None => None,
        };
        auth_message(self.server_config.key.as_str(), client_version, name)
    }

    /// How the agent meets a legacy message.  A configuration replaces the
    /// MCP servers and is answered with the diagnostics (from the probes
    /// just made) and the ready notice; a ping with a pong carrying the
    /// clock `now_secs`; an MCP request goes to the manager, or, before any
    /// configuration, is refused with -32603 "MCP not initialized".
    /// Anything else, a disconnect notice among them, is only noted.
    pub fn handle_legacy_message(&self, handler: &mut AgentHandler, msg: TunnelMessage, diagnostics: &Diagnostics, now_secs: u64)
        -> (r: LegacyReaction)
        requires
            old(handler).wf(),
        ensures
            final(handler).wf(),
            match msg {
                TunnelMessage::Config(c) => {
                    &&& final(handler).manager() matches Some(m) && m.config_map() == enabled_map(c.mcp_servers@)
                    &&& r matches LegacyReaction::Announce { diagnostics: d, ready } && {
                        &&& d.os@ == diagnostics.os@
                        &&& d.permissions@.len() == diagnostics.permissions@.len()
                        &&& forall|i: int| 0 <= i < d.permissions@.len() ==>
                            (#[trigger] d.permissions@[i]).name@ == diagnostics.permissions@[i].name@
                            && d.permissions@[i].status == reported_status(diagnostics.permissions@[i].status)
                        &&& ready.mcp_servers@.len() == 0
                    }
                },
                TunnelMessage::Ping(p) => {
                    &&& *final(handler) == *old(handler)
                    &&& r matches LegacyReaction::Send(TunnelMessage::Pong(q))
                        && q.timestamp == p.timestamp && q.sequence == p.sequence && q.server_timestamp == now_secs
                },
                TunnelMessage::McpRequest(req) => {
                    &&& *final(handler) == *old(handler)
                    &&& old(handler).manager() is Some ==> r == LegacyReaction::Forward(req)
                    &&& old(handler).manager() is None ==> (r matches LegacyReaction::Send(TunnelMessage::McpResponse(m))
                        && not_initialized_answer(m, req.correlation_id))
                },
                _ => *final(handler) == *old(handler) && r is Nothing,
            },
    {
        match msg {
            TunnelMessage::Config(c) => {
                handler.update_mcp_config(UpdateMcpConfig { servers: c.mcp_servers });
                let d = diagnostics.to_response();
                LegacyReaction::Announce { diagnostics: d, ready: AgentReady { mcp_servers: Vec::new() } }
            },
            TunnelMessage::Ping(p) => LegacyReaction::Send(TunnelMessage::Pong(pong_for(p, now_secs))),
            TunnelMessage::McpRequest(req) => {
                if handler.get_mcp_manager().is_some() {
                    LegacyReaction::Forward(req)
                } else {
                    LegacyReaction::Send(TunnelMessage::McpResponse(AgentHandler::not_initialized(req.correlation_id)))
                }
            },
            _ => LegacyReaction::Nothing,
        }
    }
}

/// The name of the diagnostics event.
pub fn diagnostics_event_name() -> (s: &'static str)
    ensures
        s@ == diagnostics_event(),
{
    "diagnostics"
}

} // verus!
