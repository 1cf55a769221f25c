//! The device side of a tunnel session, shared by the agent and the
//! tunnel client: how the session opens (credentials, then the server's
//! verdict), how the socket's events are met, how keepalives are answered
//! and how long to wait before connecting again.

use vstd::prelude::*;
use vstd::string::StringExecFns;
use vstd::string::StrSliceExecFns;
use crate::protocol::{AuthMessage, AuthResultMessage, PingMessage, PongMessage, TunnelMessage};
use crate::transport::same_text;

verus! {

/// `s` with each occurrence of `pat`, from the left and not overlapping,
/// replaced by `rep`, as `str::replace` does.
pub open spec fn replace_all(s: Seq<char>, pat: Seq<char>, rep: Seq<char>) -> Seq<char>
    decreases s.len(),
{
    if s.len() == 0 {
        s
    } else if 0 < pat.len() <= s.len() && s.take(pat.len() as int) == pat {
        rep + replace_all(s.skip(pat.len() as int), pat, rep)
    } else {
        seq![s[0]] + replace_all(s.skip(1), pat, rep)
    }
}

/// `str::replace` of a non-empty pattern.
pub fn replace_text(s: &str, pat: &str, rep: &str) -> (r: String)
    requires
        pat@.len() > 0,
    ensures
        r@ == replace_all(s@, pat@, rep@),
{
    let n = s.unicode_len();
    let m = pat.unicode_len();
    let mut out = String::new();
    let mut i: usize = 0;
    assert(s@.skip(0) =~= s@);
    while i < n
        invariant
            n == s@.len(),
            m == pat@.len(),
            m > 0,
            i <= n,
            out@ + replace_all(s@.skip(i as int), pat@, rep@) == replace_all(s@, pat@, rep@),
        decreases n - i,
    {
        let ghost rest = s@.skip(i as int);
        if m <= n - i && same_text(s.substring_char(i, i + m), pat) {
            proof {
                assert(rest.take(m as int) =~= s@.subrange(i as int, i + m));
                assert(rest.skip(m as int) =~= s@.skip(i + m));
                assert(out@ + rep@ + replace_all(s@.skip(i + m), pat@, rep@)
                    == out@ + (rep@ + replace_all(s@.skip(i + m), pat@, rep@)));
            }
            out.append(rep);
            i = i + m;
        } else {
            let c = s.get_char(i);
            proof {
                if m <= n - i {
                    assert(rest.take(m as int) =~= s@.subrange(i as int, i + m));
                }
                assert(rest.skip(1) =~= s@.skip(i + 1));
                assert(rest[0] == c);
                assert(out@.push(c) + replace_all(s@.skip(i + 1), pat@, rep@)
                    =~= out@ + (seq![c] + replace_all(s@.skip(i + 1), pat@, rep@)));
            }
            out.push(c);
            i = i + 1;
        }
    }
    proof {
        assert(s@.skip(n as int).len() == 0);
        assert(out@ + Seq::<char>::empty() =~= out@);
    }
    out
}

/// The credentials a device opens its session with.
pub fn auth_message(token: &str, client_version: &str, device_name: Option<String>) -> (m: TunnelMessage)
    ensures
        m matches TunnelMessage::Auth(a) && a.token@ == token@ && a.client_version@ == client_version@
            && a.device_name == device_name,
{
    TunnelMessage::Auth(AuthMessage { token: token.to_string(), client_version: client_version.to_string(), device_name })
}

/// How waiting for the server's verdict on the credentials ended.
#[derive(Debug)]
pub enum AuthWait {
    /// The server answered.
    Answered(AuthResultMessage),
    /// The socket closed or failed first.
    Closed,
    /// No answer came in time.
    TimedOut,
}

/// The text of an optional message, empty when absent.
pub open spec fn text_or_empty(t: Option<String>) -> Seq<char> {
    match t {
        Some(s) => s@,
        None => Seq::empty(),
    }
}

/// The session the server opened, or why the device gives up on this
/// connection.
pub fn auth_outcome(wait: AuthWait) -> (r: Result<String, String>)
    ensures
        match wait {
            AuthWait::Closed => r matches Err(e) && e@ == "Connection closed during auth"@,
            AuthWait::TimedOut => r matches Err(e) && e@ == "Auth timeout"@,
            AuthWait::Answered(a) => if a.success {
                r matches Ok(s) && s@ == text_or_empty(a.session_id)
            } else {
                r matches Err(e) && e@ == "Auth failed: "@ + text_or_empty(a.error)
            },
        },
{
    match wait {
        AuthWait::Closed => Err("Connection closed during auth".to_string()),
        AuthWait::TimedOut => Err("Auth timeout".to_string()),
        AuthWait::Answered(a) => {
            if a.success {
                match a.session_id {
                    Some(s) => Ok(s),
                    None => Ok(String::new()),
                }
            } else {
                let mut e = "Auth failed: ".to_string();
                match &a.error {
                    Some(t) => e.append(t.as_str()),
                    None => {},
                }
                proof {
                    reveal_strlit("Auth failed: ");
                    assert(e@ =~= "Auth failed: "@ + text_or_empty(a.error));
                }
                Err(e)
            }
        },
    }
}

/// The answer to a keepalive: its timestamp and sequence echoed, with the
/// device's clock (seconds since the Unix epoch) beside them.
pub fn pong_for(ping: PingMessage, now_secs: u64) -> (p: PongMessage)
    ensures
        p.timestamp == ping.timestamp,
        p.sequence == ping.sequence,
        p.server_timestamp == now_secs,
{
    PongMessage { timestamp: ping.timestamp, sequence: ping.sequence, server_timestamp: now_secs }
}

/// What the socket of an open session delivered.
#[derive(Debug)]
pub enum SocketEvent {
    /// A text frame, and what it reads as.
    Text(Option<TunnelMessage>),
    /// A websocket ping with its data.
    Ping(Vec<u8>),
    /// The server closed the socket, or it ended.
    Closed,
    /// Reading failed.
    Failed(String),
    /// Any other frame.
    Other,
}

/// What the session does with a socket event.
#[derive(Debug)]
pub enum SocketStep {
    /// Handle a protocol message.
    Handle(TunnelMessage),
    /// Answer a websocket ping with the same data.
    Pong(Vec<u8>),
    /// The session ended cleanly.
    Done,
    /// The session failed.
    Fail(String),
    /// Nothing to do.
    Ignore,
}

/// A socket event met: messages are handled, pings answered, a close ends
/// the session cleanly and a read error ends it in failure; text that is
/// no message and other frames are ignored.
pub fn socket_step(e: SocketEvent) -> (s: SocketStep)
    ensures
        match e {
            SocketEvent::Text(Some(m)) => s == SocketStep::Handle(m),
            SocketEvent::Ping(d) => s == SocketStep::Pong(d),
            SocketEvent::Closed => s is Done,
            SocketEvent::Failed(x) => s == SocketStep::Fail(x),
            _ => s is Ignore,
        },
{
    match e {
        SocketEvent::Text(Some(m)) => SocketStep::Handle(m),
        SocketEvent::Text(None) => SocketStep::Ignore,
        SocketEvent::Ping(d) => SocketStep::Pong(d),
        SocketEvent::Closed => SocketStep::Done,
        SocketEvent::Failed(x) => SocketStep::Fail(x),
        SocketEvent::Other => SocketStep::Ignore,
    }
}

/// The base of the reconnection delay, in seconds, after `attempt`
/// failed connections: one second doubled per attempt up to the tenth,
/// and at most a minute.  A random jitter of up to 30% is added to it.
pub open spec fn backoff_base_spec(attempt: u32) -> int {
    let e: nat = if attempt < 10 { attempt as nat } else { 10 };
    let p: int = vstd::arithmetic::power2::pow2(e) as int;
    if p < 60 { p } else { 60 }
}

/// The base of the reconnection delay after `attempt` failed connections.
pub fn backoff_base_secs(attempt: u32) -> (secs: u64)
    ensures
        secs == backoff_base_spec(attempt),
        1 <= secs <= 60,
{
    let e: u32 = if attempt < 10 { attempt } else { 10 };
    let mut p: u64 = 1;
    let mut k: u32 = 0;
    proof {
        vstd::arithmetic::power2::lemma2_to64();
    }
    while k < e
        invariant
            k <= e <= 10,
            p == vstd::arithmetic::power2::pow2(k as nat),
            p <= 1024,
        decreases e - k,
    {
        proof {
            vstd::arithmetic::power2::lemma_pow2_unfold((k + 1) as nat);
            vstd::arithmetic::power2::lemma2_to64();
            if k + 1 < 10 {
                vstd::arithmetic::power2::lemma_pow2_strictly_increases((k + 1) as nat, 10);
            }
        }
        p = p * 2;
        k = k + 1;
    }
    proof {
        vstd::arithmetic::power2::lemma_pow2_pos(e as nat);
    }
    if p < 60 { p } else { 60 }
}

} // verus!
