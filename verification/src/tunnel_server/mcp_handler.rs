//! How the tunnel server answers an MCP request posted for a token: a
//! body that is no JSON, a device that is not connected, the request it
//! forwards, and the answer for each way the wait for the device ends.
//! Receiving the post, the queues and the timer are outside.

use vstd::prelude::*;
use vstd::string::StringExecFns;
use crate::http::{HttpReply, instant_json, instant_view};
use crate::json::{JsonValue, JsonView};
use crate::jsonrpc::{or_null, request_id};
use crate::protocol::{McpRequestMessage, McpResponseMessage};
use crate::tunnel_server::offline::{DeviceInfo, create_timeout_response, error_envelope, info_of, timeout_view};

verus! {

/// The JSON-RPC parse error for a body that is no JSON.
pub open spec fn parse_error_view(detail: Seq<char>) -> JsonView {
    error_envelope(JsonView::Null, JsonView::Object(seq![
        ("code"@, JsonValue::int_view(-32700)),
        ("message"@, JsonView::Str("Parse error: "@ + detail)),
    ]))
}

/// The answer to a body that is no JSON: 400 and a parse error carrying
/// the parser's message.
pub fn parse_error_reply(detail: &str) -> (r: HttpReply)
    ensures
        r.status == 400,
        r.body@ == parse_error_view(detail@),
{
    let mut m = "Parse error: ".to_string();
    m.append(detail);
    proof {
        reveal_strlit("Parse error: ");
    }
    let error = JsonValue::object2("code", JsonValue::from_i64(-32700), "message", JsonValue::String(m));
    HttpReply { status: 400, body: JsonValue::object3("jsonrpc", JsonValue::from_str("2.0"), "id", JsonValue::Null, "error", error) }
}

/// The request forwarded to the device: the posted payload under a fresh
/// correlation id, for whichever server the device picks, with the
/// request timeout in milliseconds.
pub fn forwarded_request(correlation_id: u128, payload: JsonValue, timeout_secs: u64) -> (m: McpRequestMessage)
    requires
        timeout_secs * 1000 <= u64::MAX,
    ensures
        m.correlation_id == correlation_id,
        m.payload == payload,
        m.target_server is None,
        m.timeout_ms == Some((timeout_secs * 1000) as u64),
{
    McpRequestMessage { correlation_id, payload, target_server: None, timeout_ms: Some(timeout_secs * 1000) }
}

/// How waiting for the device's answer ended.
#[derive(Debug)]
pub enum DeviceOutcome {
    /// The device answered.
    Answered(McpResponseMessage),
    /// No answer came in time, or the answer's channel closed.
    TimedOut,
}

/// The answer to the posted request, from the device's answer: its error
/// as a JSON-RPC error, or its payload as it is, or a `null` result; 504
/// with the timeout error when it did not answer.
pub open spec fn outcome_reply(id: JsonView, outcome: DeviceOutcome, info: Option<DeviceInfo>) -> (u16, JsonView) {
    match outcome {
        DeviceOutcome::Answered(r) => match r.error {
            Some(e) => (200u16, error_envelope(id, JsonView::Object(seq![
                ("code"@, JsonValue::int_view(e.code as int)),
                ("message"@, JsonView::Str(e.message@)),
            ]))),
            None => match r.payload {
                Some(p) => (200u16, p@),
                None => (200u16, JsonView::Object(seq![
                    ("jsonrpc"@, JsonView::Str("2.0"@)),
                    ("id"@, id),
                    ("result"@, JsonView::Null),
                ])),
            },
        },
        DeviceOutcome::TimedOut => (504u16, timeout_view(id, info)),
    }
}

/// The answer to the request with id `request_id` for how the wait ended.
pub fn answer(request_id: Option<JsonValue>, outcome: DeviceOutcome, device_info: Option<&DeviceInfo>) -> (r: HttpReply)
    ensures
        (r.status, r.body@) == outcome_reply(or_null(request_id), outcome, info_of(device_info)),
{
    match outcome {
        DeviceOutcome::Answered(resp) => match resp.error {
            Some(e) => {
                let error = JsonValue::object2("code", JsonValue::from_i64(e.code as i64), "message", JsonValue::String(e.message));
                let id = match request_id {
                    Some(v) => v,
                    None => JsonValue::Null,
                };
                HttpReply { status: 200, body: JsonValue::object3("jsonrpc", JsonValue::from_str("2.0"), "id", id, "error", error) }
            },
            None => match resp.payload {
                Some(p) => HttpReply { status: 200, body: p },
                None => {
                    let id = match request_id {
                        Some(v) => v,
                        None => JsonValue::Null,
                    };
                    HttpReply {
                        status: 200,
                        body: JsonValue::object3("jsonrpc", JsonValue::from_str("2.0"), "id", id, "result", JsonValue::Null),
                    }
                },
            },
        },
        DeviceOutcome::TimedOut => HttpReply { status: 504, body: create_timeout_response(request_id, device_info) },
    }
}

/// The id of the posted request, which every answer carries.
pub fn posted_request_id(payload: &JsonValue) -> (r: Option<JsonValue>)
    ensures
        match r {
            Some(v) => payload@.member("id"@) == Some(v@),
            None => payload@.member("id"@) is None,
        },
{
    request_id(payload)
}

/// The device's status: `online` while it is connected, with its name and
/// when it was last seen where they are known.
pub open spec fn device_status_view(online: bool, info: Option<DeviceInfo>) -> JsonView {
    JsonView::Object(seq![
        ("status"@, JsonView::Str(if online { "online"@ } else { "offline"@ })),
        ("device_name"@, match info {
            Some(d) => match d.name {
                Some(n) => JsonView::Str(n@),
                None => JsonView::Null,
            },
            None => JsonView::Null,
        }),
        ("last_seen"@, match info {
            Some(d) => instant_view(d.last_seen),
            None => JsonView::Null,
        }),
    ])
}

/// The answer of the token's status endpoint.
pub fn device_status(online: bool, device_info: Option<&DeviceInfo>) -> (r: HttpReply)
    ensures
        r.status == 200,
        r.body@ == device_status_view(online, info_of(device_info)),
{
    let name = match device_info {
        Some(d) => match &d.name {
            Some(n) => JsonValue::from_str(n.as_str()),
            None => JsonValue::Null,
        },
        None => JsonValue::Null,
    };
    let seen = match device_info {
        Some(d) => instant_json(d.last_seen),
        None => JsonValue::Null,
    };
    let status = if online { "online" } else { "offline" };
    let body = JsonValue::object3("status", JsonValue::from_str(status), "device_name", name, "last_seen", seen);
    proof {
        assert(body@->Object_0 =~= device_status_view(online, info_of(device_info))->Object_0);
    }
    HttpReply { status: 200, body }
}

} // verus!
