//! A device's connection to the server, from its admission to its end.
//!
//! The socket, the clock, the database and the random session ids are
//! outside; here the server decides, for each thing that happens on the
//! connection, what it sends, what it records in the connection registry
//! and the table of waiting MCP requests, and when the connection ends.

use vstd::prelude::*;
use crate::http::UtcTime;
use crate::json::JsonValue;
use crate::protocol::{AuthMessage, AuthResultMessage, ConfigMessage, LogMessage, McpResponseMessage, PingMessage,
    StatusMessage, TunnelMessage};
use crate::server::models::{DeviceWithGateway, config_for_agent, same_config};
use crate::server::pending::PendingRequests;
use crate::server::registry::{ConnectionHandle, ConnectionRegistry, HandleView, add_member, copy_opt, info_for,
    is_replacement_notice, replacement_notice};
use crate::transport::{Message, same_text};

verus! {

/// What looking the device key up in the database gave.
#[derive(Debug)]
pub enum KeyLookup {
    Found(DeviceWithGateway),
    Unknown,
    Failed,
}

/// A refusal that tells the device why.
pub open spec fn refusal(m: TunnelMessage, reason: Seq<char>) -> bool {
    m matches TunnelMessage::AuthResult(a) && !a.success && a.error.deep_view() == Some(reason) && a.session_id is None
}

/// The device a key belongs to, or the refusal of the connection: an
/// unknown key is "Invalid device key", a failed lookup "Internal error".
pub fn check_device_key(lookup: KeyLookup) -> (r: Result<DeviceWithGateway, TunnelMessage>)
    ensures
        match lookup {
            KeyLookup::Found(d) => r == Ok::<DeviceWithGateway, TunnelMessage>(d),
            KeyLookup::Unknown => r matches Err(m) && refusal(m, "Invalid device key"@),
            KeyLookup::Failed => r matches Err(m) && refusal(m, "Internal error"@),
        },
{
    match lookup {
        KeyLookup::Found(d) => Ok(d),
        KeyLookup::Unknown => Err(TunnelMessage::AuthResult(AuthResultMessage::failure("Invalid device key"))),
        KeyLookup::Failed => Err(TunnelMessage::AuthResult(AuthResultMessage::failure("Internal error"))),
    }
}

/// An open device session.
pub struct DeviceSession {
    pub device_key: String,
    pub device_id: String,
    pub session_id: String,
    pub ping_sequence: u64,
}

/// How the admission of an authenticated key ended.
pub enum Admission {
    /// Send this refusal and close.
    Refuse(TunnelMessage),
    /// The device is registered: send `welcome`, then `config`, then run
    /// `session`.  A connection the same key held before is handed back,
    /// with the notice to put on its queue (`notice`: that queue and the
    /// message) so that it closes.
    Admit {
        session: DeviceSession,
        welcome: TunnelMessage,
        config: TunnelMessage,
        replaced: Option<ConnectionHandle>,
        notice: Option<(u64, TunnelMessage)>,
    },
}

/// The handle a device's connection is registered with.
pub open spec fn admitted_handle(device: DeviceWithGateway, auth: AuthMessage, session_id: Seq<char>, channel: u64, now: UtcTime)
    -> HandleView {
    HandleView {
        session_id,
        device_id: device.device.id@,
        gateway_id: device.device.gateway_id@,
        device_alias: device.device.alias@,
        connected_at_utc: now,
        device_name: auth.device_name.deep_view(),
        channel,
        last_seen: now.secs as u64,
    }
}

/// Admits the device whose key `device_key` was found as `device`, once
/// its credentials arrived (`None`: they did not in time, refused with
/// "Authentication timeout").  The connection is registered under the
/// key with the session id, its outbound queue `channel` and the clock
/// `now`, the key joins its gateway's list and the device's information
/// is recorded; a connection the key held before is told that a new one
/// replaced it.  The device is then greeted and sent its MCP server
/// configuration.
pub fn admit_device(
    registry: &mut ConnectionRegistry,
    device_key: &str,
    device: DeviceWithGateway,
    auth: Option<AuthMessage>,
    session_id: String,
    channel: u64,
    now: UtcTime,
) -> (a: Admission)
    requires
        old(registry).wf(),
    ensures
        final(registry).wf(),
        match auth {
            None => {
                &&& a matches Admission::Refuse(m) && refusal(m, "Authentication timeout"@)
                &&& final(registry)@ == old(registry)@
            },
            Some(au) => {
                &&& a matches Admission::Admit { session, welcome, config, replaced, notice } && {
                    &&& session.device_key@ == device_key@
                    &&& session.device_id@ == device.device.id@
                    &&& session.session_id@ == session_id@
                    &&& session.ping_sequence == 0
                    &&& welcome matches TunnelMessage::AuthResult(w) && w.success && w.error is None
                        && w.session_id == Some(session_id)
                    &&& config matches TunnelMessage::Config(c) && c.mcp_servers@.len() == device.device.mcp_config.servers@.len()
                        && forall|i: int| 0 <= i < c.mcp_servers@.len() ==>
                            (#[trigger] c.mcp_servers@[i]).0 == device.device.mcp_config.servers@[i].0
                            && same_config(device.device.mcp_config.servers@[i].1, c.mcp_servers@[i].1)
                    &&& (replaced matches Some(h) ==> old(registry)@.connections.contains_key(device_key@)
                        && old(registry)@.connections[device_key@] == h@)
                    &&& (replaced is None ==> !old(registry)@.connections.contains_key(device_key@))
                    &&& (replaced matches Some(h) ==> notice matches Some((c, m)) && c == h.channel
                        && is_replacement_notice(m))
                    &&& (replaced is None ==> notice is None)
                }
                &&& final(registry)@.connections == old(registry)@.connections.insert(
                    device_key@,
                    admitted_handle(device, au, session_id@, channel, now),
                )
                &&& final(registry)@.gateways == add_member(
                    old(registry)@.gateways,
                    device.device.gateway_id@,
                    device_key@,
                )
                &&& final(registry)@.device_info == old(registry)@.device_info.insert(
                    device.device.id@,
                    info_for(device.device.id@, device.device.alias@, au.device_name.deep_view(), now),
                )
            },
        },
{
    match auth {
        None => Admission::Refuse(TunnelMessage::AuthResult(AuthResultMessage::failure("Authentication timeout"))),
        Some(au) => {
            let ghost dv = device;
            let handle = ConnectionHandle {
                session_id: session_id.clone(),
                device_id: device.device.id.clone(),
                gateway_id: device.device.gateway_id.clone(),
                device_alias: device.device.alias.clone(),
                connected_at_utc: now,
                device_name: copy_opt(&au.device_name),
                channel,
                last_seen: now.secs as u64,
            };
            let replaced = registry.register(
                device_key,
                device.device.id.as_str(),
                device.device.gateway_id.as_str(),
                device.device.alias.as_str(),
                handle,
                now,
            );
            let session = DeviceSession {
                device_key: device_key.to_string(),
                device_id: device.device.id.clone(),
                session_id: session_id.clone(),
                ping_sequence: 0,
            };
            let welcome = TunnelMessage::AuthResult(AuthResultMessage::success(session_id));
            let servers = config_for_agent(device.device.mcp_config);
            let config = TunnelMessage::Config(ConfigMessage { mcp_servers: servers });
            let notice = match &replaced {
                Some(h) => Some((h.channel, replacement_notice())),
                None => None,
            };
            Admission::Admit { session, welcome, config, replaced, notice }
        },
    }
}

/// A text frame of a device, as it reads.
#[derive(Debug)]
pub enum DeviceFrame {
    /// A message of the command transport.
    Transport(Message),
    /// A message of the legacy protocol.
    Legacy(TunnelMessage),
    /// Neither.
    Unreadable,
}

/// What happens on an open device connection.
#[derive(Debug)]
pub enum DeviceEvent {
    /// The device sent a text frame.
    Text(DeviceFrame),
    /// The device answered a websocket ping.
    WsPong,
    /// The device closed the socket, or reading from it failed.
    Closed,
    /// A message was queued for the device; `None`: the queue closed.
    Queued(Option<TunnelMessage>),
    /// A transport message was queued for the device; `None`: the queue closed.
    QueuedTransport(Option<Message>),
    /// The heartbeat timer fired.
    Tick,
    /// Writing to the socket failed.
    SendFailed,
}

/// What the server learned from a device's message.
#[derive(Debug)]
pub enum DeviceNote {
    /// An MCP response; `delivered` tells whether a request waited for
    /// it, and so whether it is handed to that request.
    Response { delivered: bool, response: McpResponseMessage },
    /// The device reported its status.
    Status(StatusMessage),
    /// The device sent a log line.
    Log(LogMessage),
    /// The device sent its diagnostics (an event, or a command's answer).
    Diagnostics(JsonValue),
    /// The agent finished starting.
    AgentReady,
    /// The device sent the status of its MCP servers.
    McpStatus(JsonValue),
    /// An event nobody handles.
    UnknownEvent(String),
    /// A command sent to the device failed.
    CommandFailed { id: u128, error: String },
    /// Nothing to note.
    Nothing,
}

/// What the connection does after an event.
#[derive(Debug)]
pub enum DeviceStep {
    /// Go on; the server noted this.
    Continue(DeviceNote),
    /// Send this message and go on.
    Send(TunnelMessage),
    /// Send this transport message and go on.
    SendTransport(Message),
    /// The connection is over; it was unregistered.
    Stop,
}

/// The event names the server reads from a device.
pub open spec fn event_note(name: Seq<char>, payload: JsonValue) -> DeviceNote {
    if name == "diagnostics"@ {
        DeviceNote::Diagnostics(payload)
    } else if name == "agent_ready"@ {
        DeviceNote::AgentReady
    } else if name == "mcp_status"@ {
        DeviceNote::McpStatus(payload)
    } else {
        DeviceNote::Nothing
    }
}

/// What a transport message of a device tells the server.
pub open spec fn transport_note(m: Message) -> DeviceNote {
    match m {
        Message::Event { name, payload } => if name@ == "diagnostics"@ || name@ == "agent_ready"@ || name@ == "mcp_status"@ {
            event_note(name@, payload)
        } else {
            DeviceNote::UnknownEvent(name)
        },
        Message::Response { id, payload, error } => match error {
            Some(e) => DeviceNote::CommandFailed { id, error: e },
            None => match payload {
                Some(p) => DeviceNote::Diagnostics(p),
                None => DeviceNote::Nothing,
            },
        },
        _ => DeviceNote::Nothing,
    }
}

/// What a transport message of a device tells the server.
pub fn read_transport_message(m: Message) -> (n: DeviceNote)
    ensures
        n == transport_note(m),
{
    match m {
        Message::Event { name, payload } => {
            if same_text(name.as_str(), "diagnostics") {
                DeviceNote::Diagnostics(payload)
            } else if same_text(name.as_str(), "agent_ready") {
                DeviceNote::AgentReady
            } else if same_text(name.as_str(), "mcp_status") {
                DeviceNote::McpStatus(payload)
            } else {
                DeviceNote::UnknownEvent(name)
            }
        },
        Message::Response { id, payload, error } => match error {
            Some(e) => DeviceNote::CommandFailed { id, error: e },
            None => match payload {
                Some(p) => DeviceNote::Diagnostics(p),
                None => DeviceNote::Nothing,
            },
        },
        _ => DeviceNote::Nothing,
    }
}

impl DeviceSession {
    /// Ends the session: the connection leaves the registry.
    pub fn close(&self, registry: &mut ConnectionRegistry, now: UtcTime)
        requires
            old(registry).wf(),
        ensures
            final(registry).wf(),
            !final(registry)@.connections.contains_key(self.device_key@),
            forall|k: Seq<char>| k != self.device_key@ ==> #[trigger] final(registry)@.connections.contains_key(k)
                == old(registry)@.connections.contains_key(k),
    {
        registry.unregister(self.device_key.as_str(), now);
    }

    /// One step of an open connection at clock `now`.  Anything the device
    /// sends refreshes the time it was last seen; an MCP response goes to
    /// the request that waits for it; the heartbeat sends the next ping;
    /// queued messages are sent; a close, a closed queue or a failed write
    /// ends the connection, which then leaves the registry.
    pub fn step(&mut self, registry: &mut ConnectionRegistry, pending: &mut PendingRequests, event: DeviceEvent, now: UtcTime)
        -> (s: DeviceStep)
        requires
            old(registry).wf(),
            event is Tick ==> old(self).ping_sequence < u64::MAX,
        ensures
            final(registry).wf(),
            final(self).device_key == old(self).device_key,
            s is Stop ==> !final(registry)@.connections.contains_key(old(self).device_key@),
            !(s is Stop) ==> final(registry)@.connections.contains_key(old(self).device_key@)
                == old(registry)@.connections.contains_key(old(self).device_key@),
            match event {
                DeviceEvent::Text(DeviceFrame::Legacy(TunnelMessage::McpResponse(r))) => {
                    &&& s matches DeviceStep::Continue(DeviceNote::Response { delivered, response })
                        && delivered == old(pending).ids().contains(r.correlation_id) && response == r
                    &&& final(pending).ids() == old(pending).ids().remove(r.correlation_id)
                },
                DeviceEvent::Text(DeviceFrame::Legacy(TunnelMessage::Status(st))) => s == DeviceStep::Continue(DeviceNote::Status(st)),
                DeviceEvent::Text(DeviceFrame::Legacy(TunnelMessage::Log(l))) => s == DeviceStep::Continue(DeviceNote::Log(l)),
                DeviceEvent::Text(DeviceFrame::Legacy(_)) => s == DeviceStep::Continue(DeviceNote::Nothing),
                DeviceEvent::Text(DeviceFrame::Transport(m)) => s == DeviceStep::Continue(transport_note(m)),
                DeviceEvent::Text(DeviceFrame::Unreadable) => s == DeviceStep::Continue(DeviceNote::Nothing),
                DeviceEvent::WsPong => s == DeviceStep::Continue(DeviceNote::Nothing),
                DeviceEvent::Queued(Some(m)) => s == DeviceStep::Send(m),
                DeviceEvent::QueuedTransport(Some(m)) => s == DeviceStep::SendTransport(m),
                DeviceEvent::Tick => {
                    &&& final(self).ping_sequence == old(self).ping_sequence + 1
                    &&& s matches DeviceStep::Send(TunnelMessage::Ping(p))
                        && p.sequence == final(self).ping_sequence && p.timestamp == now.secs as u64
                },
                _ => s is Stop,
            },
            !(event matches DeviceEvent::Text(DeviceFrame::Legacy(TunnelMessage::McpResponse(_)))) ==> final(pending).ids() == old(pending).ids(),
            !(event is Tick) ==> final(self).ping_sequence == old(self).ping_sequence,
            (event is Text || event is WsPong) && old(registry)@.connections.contains_key(old(self).device_key@) ==>
                final(registry)@.connections[old(self).device_key@].last_seen == now.secs as u64,
    {
        match event {
            DeviceEvent::Text(frame) => {
                registry.update_last_seen(self.device_key.as_str(), now);
                match frame {
                    DeviceFrame::Transport(m) => DeviceStep::Continue(read_transport_message(m)),
                    DeviceFrame::Legacy(TunnelMessage::McpResponse(r)) => {
                        let delivered = pending.complete(&r);
                        DeviceStep::Continue(DeviceNote::Response { delivered, response: r })
                    },
                    DeviceFrame::Legacy(TunnelMessage::Status(st)) => DeviceStep::Continue(DeviceNote::Status(st)),
                    DeviceFrame::Legacy(TunnelMessage::Log(l)) => DeviceStep::Continue(DeviceNote::Log(l)),
                    DeviceFrame::Legacy(_) => DeviceStep::Continue(DeviceNote::Nothing),
                    DeviceFrame::Unreadable => DeviceStep::Continue(DeviceNote::Nothing),
                }
            },
            DeviceEvent::WsPong => {
                registry.update_last_seen(self.device_key.as_str(), now);
                DeviceStep::Continue(DeviceNote::Nothing)
            },
            DeviceEvent::Queued(Some(m)) => DeviceStep::Send(m),
            DeviceEvent::QueuedTransport(Some(m)) => DeviceStep::SendTransport(m),
            DeviceEvent::Tick => {
                self.ping_sequence = self.ping_sequence + 1;
                DeviceStep::Send(TunnelMessage::Ping(PingMessage { timestamp: now.secs as u64, sequence: self.ping_sequence }))
            },
            _ => {
                self.close(registry, now);
                DeviceStep::Stop
            },
        }
    }
}

} // verus!
