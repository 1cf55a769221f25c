//! The answers the tunnel server gives for a device that is not there or
//! did not answer in time.

use vstd::prelude::*;
use vstd::string::StringExecFns;
use crate::http::{HttpReply, UtcTime, instant_json, instant_view};
use crate::json::{JsonValue, JsonView};
use crate::jsonrpc::or_null;

verus! {

/// What the tunnel server remembers of a device.
#[derive(Debug)]
pub struct DeviceInfo {
    pub name: Option<String>,
    /// Last time the device was heard from.
    pub last_seen: UtcTime,
}

/// How a message names the device: by its name where it has one.
pub open spec fn device_desc(info: Option<DeviceInfo>, fallback: Seq<char>) -> Seq<char> {
    match info {
        Some(d) => match d.name {
            Some(n) => "Device '"@ + n@ + "' "@,
            None => fallback,
        },
        None => fallback,
    }
}

fn describe(info: Option<&DeviceInfo>, fallback: &str) -> (s: String)
    ensures
        s@ == device_desc(match info { Some(d) => Some(*d), None => None }, fallback@),
{
    match info {
        Some(d) => match &d.name {
            Some(n) => {
                let mut s = "Device '".to_string();
                s.append(n.as_str());
                s.append("' ");
                proof {
                    reveal_strlit("Device '");
                    reveal_strlit("' ");
                }
                s
            },
            None => fallback.to_string(),
        },
        None => fallback.to_string(),
    }
}

/// `{"jsonrpc": "2.0", "id": id, "error": error}`.
pub open spec fn error_envelope(id: JsonView, error: JsonView) -> JsonView {
    JsonView::Object(seq![("jsonrpc"@, JsonView::Str("2.0"@)), ("id"@, id), ("error"@, error)])
}

/// When the device was last seen, if it is known.
pub open spec fn last_seen_view(info: Option<DeviceInfo>) -> JsonView {
    match info {
        Some(d) => instant_view(d.last_seen),
        None => JsonView::Null,
    }
}

/// The help text of the offline answer.
pub open spec fn offline_help() -> Seq<char> {
    "The device may be powered off, disconnected from the internet, or the tunnel client may not be running. Please try again later or contact the device owner."@
}

/// The help text of the timeout answer.
pub open spec fn timeout_help() -> Seq<char> {
    "The device is connected but did not respond to the request. This could be due to high load or a slow MCP server."@
}

/// The JSON-RPC error for a device that is offline (-32001).
pub open spec fn offline_view(id: JsonView, info: Option<DeviceInfo>) -> JsonView {
    error_envelope(id, JsonView::Object(seq![
        ("code"@, JsonValue::int_view(-32001)),
        ("message"@, JsonView::Str(device_desc(info, "The requested device "@) + "is currently offline or disconnected"@)),
        ("data"@, JsonView::Object(seq![
            ("error_type"@, JsonView::Str("device_offline"@)),
            ("retry_after_seconds"@, JsonValue::int_view(30)),
            ("help"@, JsonView::Str(offline_help())),
            ("last_seen"@, last_seen_view(info)),
        ])),
    ]))
}

/// The JSON-RPC error for a device that did not answer in time (-32000).
pub open spec fn timeout_view(id: JsonView, info: Option<DeviceInfo>) -> JsonView {
    error_envelope(id, JsonView::Object(seq![
        ("code"@, JsonValue::int_view(-32000)),
        ("message"@, JsonView::Str(device_desc(info, "The device "@) + "did not respond in time"@)),
        ("data"@, JsonView::Object(seq![
            ("error_type"@, JsonView::Str("request_timeout"@)),
            ("retry_after_seconds"@, JsonValue::int_view(10)),
            ("help"@, JsonView::Str(timeout_help())),
        ])),
    ]))
}

/// The optional information as a value.
pub open spec fn info_of(info: Option<&DeviceInfo>) -> Option<DeviceInfo> {
    match info {
        Some(d) => Some(*d),
        None => None,
    }
}

/// The offline error answering `request_id`, naming the device where it is known.
pub fn create_offline_response(request_id: Option<JsonValue>, device_info: Option<&DeviceInfo>) -> (b: JsonValue)
    ensures
        b@ == offline_view(or_null(request_id), info_of(device_info)),
{
    let mut message = describe(device_info, "The requested device ");
    message.append("is currently offline or disconnected");
    let last_seen = match device_info {
        Some(d) => instant_json(d.last_seen),
        None => JsonValue::Null,
    };
    let data = JsonValue::object4(
        "error_type",
        JsonValue::from_str("device_offline"),
        "retry_after_seconds",
        JsonValue::from_u64(30),
        "help",
        JsonValue::from_str(
            "The device may be powered off, disconnected from the internet, or the tunnel client may not be running. Please try again later or contact the device owner.",
        ),
        "last_seen",
        last_seen,
    );
    let error = JsonValue::object3("code", JsonValue::from_i64(-32001), "message", JsonValue::String(message), "data", data);
    let id = match request_id {
        Some(v) => v,
        None => JsonValue::Null,
    };
    JsonValue::object3("jsonrpc", JsonValue::from_str("2.0"), "id", id, "error", error)
}

/// The timeout error answering `request_id`, naming the device where it is known.
pub fn create_timeout_response(request_id: Option<JsonValue>, device_info: Option<&DeviceInfo>) -> (b: JsonValue)
    ensures
        b@ == timeout_view(or_null(request_id), info_of(device_info)),
{
    let mut message = describe(device_info, "The device ");
    message.append("did not respond in time");
    let data = JsonValue::object3(
        "error_type",
        JsonValue::from_str("request_timeout"),
        "retry_after_seconds",
        JsonValue::from_u64(10),
        "help",
        JsonValue::from_str(
            "The device is connected but did not respond to the request. This could be due to high load or a slow MCP server.",
        ),
    );
    let error = JsonValue::object3("code", JsonValue::from_i64(-32000), "message", JsonValue::String(message), "data", data);
    let id = match request_id {
        Some(v) => v,
        None => JsonValue::Null,
    };
    JsonValue::object3("jsonrpc", JsonValue::from_str("2.0"), "id", id, "error", error)
}

/// The offline answer: its body and after how many seconds the caller may
/// retry.  It is written with status 503 and the offline header lines.
#[derive(Debug)]
pub struct OfflineResponse {
    pub body: JsonValue,
    pub retry_after: u32,
}

impl OfflineResponse {
    /// The offline answer to `request_id` for the device described by `device_info`.
    pub fn new(request_id: Option<JsonValue>, device_info: Option<&DeviceInfo>, retry_after: u32) -> (r: Self)
        ensures
            r.body@ == offline_view(or_null(request_id), info_of(device_info)),
            r.retry_after == retry_after,
    {
        OfflineResponse { body: create_offline_response(request_id, device_info), retry_after }
    }

    /// The status code the answer is written with: 503, service unavailable.
    pub fn status(&self) -> (s: u16)
        ensures
            s == 503,
    {
        503
    }

    /// The answer as it is written: 503 with the offline body (its header
    /// lines are `offline_header_lines(retry_after)`).
    pub fn into_reply(self) -> (r: HttpReply)
        ensures
            r.status == 503,
            r.body == self.body,
    {
        HttpReply { status: 503, body: self.body }
    }
}

} // verus!
