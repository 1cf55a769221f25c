//! A device's tunnel to the tunnel server, from its credentials to its
//! end.  The socket, the clock and the token file are outside; for each
//! thing that happens on the tunnel the server decides what it sends, what
//! it records, and when the tunnel ends.

use vstd::prelude::*;
use crate::protocol::{AuthMessage, AuthResultMessage, McpResponseMessage, PingMessage, TunnelMessage};
use crate::server::pending::PendingRequests;
use crate::tokens::{token_accepted, validate_token};

verus! {

/// An open tunnel of the device that presented `token`.
pub struct TunnelSession {
    pub token: String,
    pub session_id: String,
    pub ping_sequence: u64,
}

/// How the opening of a tunnel ended.
pub enum TunnelAdmission {
    /// Send this refusal and close.
    Refuse(TunnelMessage),
    /// Register the tunnel under the session's token, send `welcome`, and
    /// run the session.
    Admit { session: TunnelSession, welcome: TunnelMessage },
}

/// A refusal that tells the device why.
pub open spec fn refused_with(m: TunnelMessage, reason: Seq<char>) -> bool {
    m matches TunnelMessage::AuthResult(a) && !a.success && a.error.deep_view() == Some(reason) && a.session_id is None
}

/// The opening of a tunnel once the device's credentials arrived (`None`:
/// not in time, refused with "Authentication timeout").  The token is
/// checked against the server's token backend, with the token file's
/// content where it could be read; a token it does not accept is refused
/// with "Invalid token".  An accepted token opens session `session_id`.
pub fn open_tunnel(auth: Option<AuthMessage>, backend: &str, token_file: Option<&str>, session_id: String) -> (a: TunnelAdmission)
    ensures
        match auth {
            None => a matches TunnelAdmission::Refuse(m) && refused_with(m, "Authentication timeout"@),
            Some(au) => if token_accepted(au.token@, backend@, match token_file {
                Some(c) => Some(c@),
                None => None,
            }) {
                a matches TunnelAdmission::Admit { session, welcome } && {
                    &&& session.token == au.token
                    &&& session.session_id@ == session_id@
                    &&& session.ping_sequence == 0
                    &&& welcome matches TunnelMessage::AuthResult(w) && w.success && w.error is None
                        && w.session_id == Some(session_id)
                }
            } else {
                a matches TunnelAdmission::Refuse(m) && refused_with(m, "Invalid token"@)
            },
        },
{
    match auth {
        None => TunnelAdmission::Refuse(TunnelMessage::AuthResult(AuthResultMessage::failure("Authentication timeout"))),
        Some(au) => {
            if validate_token(au.token.as_str(), backend, token_file) {
                let session = TunnelSession { token: au.token, session_id: session_id.clone(), ping_sequence: 0 };
                TunnelAdmission::Admit { session, welcome: TunnelMessage::AuthResult(AuthResultMessage::success(session_id)) }
            } else {
                TunnelAdmission::Refuse(TunnelMessage::AuthResult(AuthResultMessage::failure("Invalid token")))
            }
        },
    }
}

/// What happens on an open tunnel.
#[derive(Debug)]
pub enum TunnelEvent {
    /// The device sent a text frame, and what it reads as.
    Text(Option<TunnelMessage>),
    /// The device answered a websocket ping.
    WsPong,
    /// The device closed the socket, or reading from it failed.
    Closed,
    /// A message was queued for the device; `None`: the queue closed.
    Queued(Option<TunnelMessage>),
    /// The heartbeat timer fired.
    Tick,
    /// Writing to the socket failed.
    SendFailed,
}

/// What the tunnel does after an event.
#[derive(Debug)]
pub enum TunnelStep {
    /// The device was heard from: refresh the time it was last seen.
    Touched,
    /// The device answered an MCP request: refresh the time it was last
    /// seen; `delivered` tells whether a request waited for the response,
    /// and so whether it is handed to that request.
    Answered { delivered: bool, response: McpResponseMessage },
    /// Send this message.
    Send(TunnelMessage),
    /// The tunnel is over: unregister it.
    Stop,
}

/// The ping sequence of a tunnel after `event`, where it was `seq`
/// before: each heartbeat raises it by one.
pub open spec fn next_ping_sequence(seq: int, event: TunnelEvent) -> int {
    if event is Tick {
        seq + 1
    } else {
        seq
    }
}

/// How many heartbeats a run of events holds.
pub open spec fn tick_count(events: Seq<TunnelEvent>) -> nat
    decreases events.len(),
{
    if events.len() == 0 {
        0
    } else {
        tick_count(events.drop_last()) + if events.last() is Tick {
            1nat
        } else {
            0nat
        }
    }
}

/// The ping sequence after a run of events, from `start`.
pub open spec fn sequence_after(start: int, events: Seq<TunnelEvent>) -> int
    decreases events.len(),
{
    if events.len() == 0 {
        start
    } else {
        next_ping_sequence(sequence_after(start, events.drop_last()), events.last())
    }
}

/// The sequence numbers of the pings a run of events sends, in order,
/// from a tunnel whose sequence was `start`: each heartbeat sends the
/// sequence it raised.
pub open spec fn pings_sent(start: int, events: Seq<TunnelEvent>) -> Seq<int>
    decreases events.len(),
{
    if events.len() == 0 {
        Seq::empty()
    } else {
        let before = pings_sent(start, events.drop_last());
        if events.last() is Tick {
            before.push(next_ping_sequence(sequence_after(start, events.drop_last()), events.last()))
        } else {
            before
        }
    }
}

/// One more event extends a run as `TunnelSession::step` states: the
/// sequence moves by `next_ping_sequence`, and a heartbeat adds the ping
/// it sends.
pub proof fn law_run_extends_by_step(start: int, events: Seq<TunnelEvent>, event: TunnelEvent)
    ensures
        sequence_after(start, events.push(event)) == next_ping_sequence(sequence_after(start, events), event),
        pings_sent(start, events.push(event)) == if event is Tick {
            pings_sent(start, events).push(next_ping_sequence(sequence_after(start, events), event))
        } else {
            pings_sent(start, events)
        },
{
    assert(events.push(event).drop_last() =~= events);
}

/// On a tunnel just opened (sequence 0), the pings carry the sequence
/// numbers 1, 2, 3, ... in order, with no gap: the n-th ping sent carries
/// n, and the sequence is the number of heartbeats so far.
pub proof fn law_pings_count_from_one(events: Seq<TunnelEvent>)
    ensures
        sequence_after(0, events) == tick_count(events),
        pings_sent(0, events) == Seq::new(tick_count(events), |i: int| i + 1),
    decreases events.len(),
{
    if events.len() > 0 {
        let prefix = events.drop_last();
        law_pings_count_from_one(prefix);
        if events.last() is Tick {
            assert(pings_sent(0, events) =~= Seq::new(tick_count(events), |i: int| i + 1));
        } else {
            assert(pings_sent(0, events) =~= Seq::new(tick_count(events), |i: int| i + 1));
        }
    } else {
        assert(pings_sent(0, events) =~= Seq::new(0, |i: int| i + 1));
    }
}

impl TunnelSession {
    /// One step of an open tunnel at clock `now`: anything the device
    /// sends refreshes the time it was last seen, and an MCP response goes
    /// to the request that waits for it; the heartbeat sends the next
    /// ping; queued messages are sent; a close, a closed queue or a failed
    /// write ends the tunnel.
    pub fn step(&mut self, pending: &mut PendingRequests, event: TunnelEvent, now: u64) -> (s: TunnelStep)
        requires
            event is Tick ==> old(self).ping_sequence < u64::MAX,
        ensures
            final(self).token == old(self).token,
            final(self).session_id == old(self).session_id,
            match event {
                TunnelEvent::Text(Some(TunnelMessage::McpResponse(r))) => {
                    &&& s == TunnelStep::Answered { delivered: old(pending).ids().contains(r.correlation_id), response: r }
                    &&& final(pending).ids() == old(pending).ids().remove(r.correlation_id)
                },
                TunnelEvent::Text(_) => s == TunnelStep::Touched,
                TunnelEvent::WsPong => s == TunnelStep::Touched,
                TunnelEvent::Queued(Some(m)) => s == TunnelStep::Send(m),
                TunnelEvent::Tick => {
                    &&& final(self).ping_sequence == old(self).ping_sequence + 1
                    &&& s matches TunnelStep::Send(TunnelMessage::Ping(p))
                        && p.sequence == final(self).ping_sequence && p.timestamp == now
                },
                _ => s is Stop,
            },
            !(event matches TunnelEvent::Text(Some(TunnelMessage::McpResponse(_)))) ==> final(pending).ids() == old(pending).ids(),
            !(event is Tick) ==> final(self).ping_sequence == old(self).ping_sequence,
            final(self).ping_sequence == next_ping_sequence(old(self).ping_sequence as int, event),
    {
        match event {
            TunnelEvent::Text(Some(TunnelMessage::McpResponse(r))) => {
                let delivered = pending.complete(&r);
                TunnelStep::Answered { delivered, response: r }
            },
            TunnelEvent::Text(_) => TunnelStep::Touched,
            TunnelEvent::WsPong => TunnelStep::Touched,
            TunnelEvent::Queued(Some(m)) => TunnelStep::Send(m),
            TunnelEvent::Tick => {
                self.ping_sequence = self.ping_sequence + 1;
                TunnelStep::Send(TunnelMessage::Ping(PingMessage { timestamp: now, sequence: self.ping_sequence }))
            },
            _ => TunnelStep::Stop,
        }
    }
}

} // verus!
