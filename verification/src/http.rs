//! The answers the servers write over HTTP: a status code and a JSON body,
//! and the header lines of an answer that tells the caller to come back
//! later.

use vstd::prelude::*;
use crate::json::{JsonValue, JsonView};
use crate::text::{decimal_spec, decimal_text};

verus! {

/// An HTTP answer: its status code and its JSON body.
#[derive(Debug)]
pub struct HttpReply {
    pub status: u16,
    pub body: JsonValue,
}

/// `{"error": message}`.
pub open spec fn error_body(message: Seq<char>) -> JsonView {
    JsonView::Object(seq![("error"@, JsonView::Str(message))])
}

/// An answer with status `status` and the body `{"error": message}`.
pub fn error_reply(status: u16, message: &str) -> (r: HttpReply)
    ensures
        r.status == status,
        r.body@ == error_body(message@),
{
    HttpReply { status, body: JsonValue::object1("error", JsonValue::from_str(message)) }
}

/// The answer of the health check: 200 and `{"status": "ok"}`.
pub fn health() -> (r: HttpReply)
    ensures
        r.status == 200,
        r.body@ == JsonView::Object(seq![("status"@, JsonView::Str("ok"@))]),
{
    HttpReply { status: 200, body: JsonValue::object1("status", JsonValue::from_str("ok")) }
}

/// The header lines of an answer for a device that is offline: the body
/// is JSON, the caller may retry after `retry_after` seconds, and the
/// device's status is `offline`.
pub open spec fn offline_headers(retry_after: u32) -> Seq<(Seq<char>, Seq<char>)> {
    seq![
        ("Content-Type"@, "application/json"@),
        ("Retry-After"@, decimal_spec(retry_after as nat)),
        ("X-Device-Status"@, "offline"@),
    ]
}

/// The header lines of an offline answer.
pub fn offline_header_lines(retry_after: u32) -> (h: Vec<(String, String)>)
    ensures
        h@.len() == 3,
        forall|i: int| 0 <= i < 3 ==> (#[trigger] h@[i]).0@ == offline_headers(retry_after)[i].0
            && h@[i].1@ == offline_headers(retry_after)[i].1,
{
    let mut h: Vec<(String, String)> = Vec::new();
    h.push(("Content-Type".to_string(), "application/json".to_string()));
    h.push(("Retry-After".to_string(), decimal_text(retry_after as u64)));
    h.push(("X-Device-Status".to_string(), "offline".to_string()));
    h
}

/// An instant in UTC: whole seconds since the Unix epoch and the
/// nanoseconds past that second.
#[derive(Debug, Clone, Copy, PartialEq, Eq, Structural)]
pub struct UtcTime {
    pub secs: i64,
    pub nanos: u32,
}

/// The RFC 3339 text of the instant `secs` seconds and `nanos`
/// nanoseconds after the Unix epoch, as `chrono` writes a UTC time (with
/// as many fractional digits as the nanoseconds need; `None` where
/// `chrono` cannot represent the instant).
pub uninterp spec fn rfc3339_of(secs: i64, nanos: u32) -> Option<Seq<char>>;

/// `chrono::DateTime::<Utc>::from_timestamp(secs, nanos)`, written with
/// `to_rfc3339`: the text is named `rfc3339_of(secs, nanos)`; `None`
/// where the instant is out of `chrono`'s range.
#[verifier::external_body]
pub(crate) fn rfc3339_text(secs: i64, nanos: u32) -> (r: Option<String>)
    ensures
        match r {
            Some(t) => rfc3339_of(secs, nanos) == Some(t@),
            None => rfc3339_of(secs, nanos) is None,
        },
{
    match chrono::DateTime::from_timestamp(secs, nanos) {
        Some(d) => Some(d.to_rfc3339()),
        None => None,
    }
}

/// An instant as JSON: its RFC 3339 text, or `null`.
pub open spec fn instant_view(t: UtcTime) -> JsonView {
    match rfc3339_of(t.secs, t.nanos) {
        Some(x) => JsonView::Str(x),
        None => JsonView::Null,
    }
}

/// An instant as JSON.
pub fn instant_json(t: UtcTime) -> (v: JsonValue)
    ensures
        v@ == instant_view(t),
{
    match rfc3339_text(t.secs, t.nanos) {
        Some(x) => JsonValue::String(x),
        None => JsonValue::Null,
    }
}

} // verus!
