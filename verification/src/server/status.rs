//! The gateway endpoints' answers that do not go through a device: an
//! unknown gateway, the gateway's status, and the answer given when no
//! device of the gateway is online.

use vstd::prelude::*;
use crate::http::{HttpReply, error_body, error_reply, instant_json, instant_view};
use crate::json::{JsonValue, JsonView, items_view};
use crate::jsonrpc::or_null;
use crate::server::models::Gateway;
use crate::server::registry::ConnectionHandle;

verus! {

/// What looking a gateway key up in the database gave.
#[derive(Debug)]
pub enum GatewayLookup {
    Found(Gateway),
    Unknown,
    Failed,
}

/// The gateway a key belongs to, or the answer that refuses the request:
/// 404 "Gateway not found" for an unknown key, 500 "Internal error" for a
/// failed lookup.
pub fn check_gateway(lookup: GatewayLookup) -> (r: Result<Gateway, HttpReply>)
    ensures
        match lookup {
            GatewayLookup::Found(g) => r == Ok::<Gateway, HttpReply>(g),
            GatewayLookup::Unknown => r matches Err(h) && h.status == 404 && h.body@ == error_body("Gateway not found"@),
            GatewayLookup::Failed => r matches Err(h) && h.status == 500 && h.body@ == error_body("Internal error"@),
        },
{
    match lookup {
        GatewayLookup::Found(g) => Ok(g),
        GatewayLookup::Unknown => Err(error_reply(404, "Gateway not found")),
        GatewayLookup::Failed => Err(error_reply(500, "Internal error")),
    }
}

/// The answer when the MCP service itself failed: 500 "Internal server error".
pub fn service_failure() -> (r: HttpReply)
    ensures
        r.status == 500,
        r.body@ == error_body("Internal server error"@),
{
    error_reply(500, "Internal server error")
}

/// A device as the gateway status lists it.
pub open spec fn device_entry_view(h: ConnectionHandle) -> JsonView {
    JsonView::Object(seq![
        ("alias"@, JsonView::Str(h.device_alias@)),
        ("device_name"@, match h.device_name {
            Some(n) => JsonView::Str(n@),
            None => JsonView::Null,
        }),
        ("connected_at"@, instant_view(h.connected_at_utc)),
    ])
}

/// The gateway's status: `online` when a device is connected, how many,
/// and each of them.
pub open spec fn gateway_status_view(devices: Seq<ConnectionHandle>) -> JsonView {
    JsonView::Object(seq![
        ("status"@, JsonView::Str(if devices.len() == 0 { "offline"@ } else { "online"@ })),
        ("online_devices"@, JsonValue::int_view(devices.len() as int)),
        ("devices"@, JsonView::Array(Seq::new(devices.len(), |i: int| device_entry_view(devices[i])))),
    ])
}

/// The status counts exactly the devices it lists: `online_devices` is the
/// length of its `devices` list, which holds one entry per connected
/// device, whatever their number; and it says `online` exactly when that
/// number is not zero.
pub proof fn law_status_counts_listed_devices(devices: Seq<ConnectionHandle>)
    ensures
        ({
            let body = gateway_status_view(devices);
            &&& body.member("devices"@) matches Some(JsonView::Array(items))
            &&& items.len() == devices.len()
            &&& body.member("online_devices"@) matches Some(n)
            &&& n.unsigned() == Some(items.len() as u64)
            &&& body.member("status"@) == Some(JsonView::Str(if items.len() == 0 { "offline"@ } else { "online"@ }))
        }),
{
    reveal_strlit("status");
    reveal_strlit("online_devices");
    reveal_strlit("devices");
    reveal_with_fuel(crate::json::first_member, 4);
    let fields = gateway_status_view(devices)->Object_0;
    assert("status"@[0] != "online_devices"@[0]);
    assert("status"@[0] != "devices"@[0]);
    assert("online_devices"@[0] != "devices"@[0]);
    assert(fields[0].0 == "status"@);
    assert(fields[1].0 == "online_devices"@);
    assert(fields[2].0 == "devices"@);
    assert(fields.drop_first()[0] == fields[1]);
    assert(fields.drop_first().drop_first()[0] == fields[2]);
    assert(crate::json::first_member(fields, "status"@) == Some(fields[0].1));
    assert(crate::json::first_member(fields, "online_devices"@) == Some(fields[1].1));
    assert(crate::json::first_member(fields, "devices"@) == Some(fields[2].1));
}

/// The answer of the status endpoint for the gateway's connected devices.
pub fn gateway_status(devices: &Vec<ConnectionHandle>) -> (r: HttpReply)
    ensures
        r.status == 200,
        r.body@ == gateway_status_view(devices@),
{
    let mut entries: Vec<JsonValue> = Vec::new();
    let mut i: usize = 0;
    while i < devices.len()
        invariant
            i <= devices@.len(),
            entries@.len() == i,
            forall|k: int| 0 <= k < i ==> (#[trigger] entries@[k])@ == device_entry_view(devices@[k]),
        decreases devices@.len() - i,
    {
        let h = &devices[i];
        let name = match &h.device_name {
            Some(n) => JsonValue::from_str(n.as_str()),
            None => JsonValue::Null,
        };
        assert(name@ == match h.device_name {
            Some(n) => JsonView::Str(n@),
            None => JsonView::Null,
        });
        let e = JsonValue::object3(
            "alias",
            JsonValue::from_str(h.device_alias.as_str()),
            "device_name",
            name,
            "connected_at",
            instant_json(h.connected_at_utc),
        );
        assert(*h == devices@[i as int]);
        assert(e@->Object_0 =~= device_entry_view(*h)->Object_0);
        let ghost before = entries@;
        entries.push(e);
        proof {
            assert forall|k: int| 0 <= k < i + 1 implies (#[trigger] entries@[k])@ == device_entry_view(devices@[k]) by {
                if k < i {
                    assert(entries@[k] == before[k]);
                }
            }
        }
        i = i + 1;
    }
    let ghost ev = items_view(entries@);
    let n = devices.len();
    let status = if n == 0 { "offline" } else { "online" };
    let arr = JsonValue::Array(entries);
    proof {
        JsonValue::lemma_array_view(entries);
        assert(ev =~= Seq::new(devices@.len(), |i: int| device_entry_view(devices@[i])));
    }
    HttpReply {
        status: 200,
        body: JsonValue::object3("status", JsonValue::from_str(status), "online_devices", JsonValue::from_u64(n as u64), "devices", arr),
    }
}

/// The JSON-RPC error a gateway answers with when none of its devices is online.
pub open spec fn gateway_offline_view(id: JsonView) -> JsonView {
    JsonView::Object(seq![
        ("jsonrpc"@, JsonView::Str("2.0"@)),
        ("id"@, id),
        ("error"@, JsonView::Object(seq![
            ("code"@, JsonValue::int_view(-32001)),
            ("message"@, JsonView::Str("No devices are currently online for this gateway"@)),
            ("data"@, JsonView::Object(seq![
                ("error_type"@, JsonView::Str("device_offline"@)),
                ("retry_after_seconds"@, JsonValue::int_view(30)),
                ("help"@, JsonView::Str("The device may be disconnected. Please try again later."@)),
            ])),
        ])),
    ])
}

/// The body of the gateway's offline answer to the request `request_id`.
pub fn gateway_offline_body(request_id: Option<JsonValue>) -> (b: JsonValue)
    ensures
        b@ == gateway_offline_view(or_null(request_id)),
{
    let id = match request_id {
        Some(v) => v,
        None => JsonValue::Null,
    };
    let data = JsonValue::object3(
        "error_type",
        JsonValue::from_str("device_offline"),
        "retry_after_seconds",
        JsonValue::from_u64(30),
        "help",
        JsonValue::from_str("The device may be disconnected. Please try again later."),
    );
    let error = JsonValue::object3(
        "code",
        JsonValue::from_i64(-32001),
        "message",
        JsonValue::from_str("No devices are currently online for this gateway"),
        "data",
        data,
    );
    JsonValue::object3("jsonrpc", JsonValue::from_str("2.0"), "id", id, "error", error)
}

/// The gateway's offline answer: its body and after how many seconds the
/// caller may retry.  It is written with status 503 and the offline header
/// lines.
#[derive(Debug)]
pub struct OfflineResponse {
    pub body: JsonValue,
    pub retry_after: u32,
}

impl OfflineResponse {
    /// The offline answer to the request `request_id`.
    pub fn new(request_id: Option<JsonValue>, retry_after: u32) -> (r: Self)
        ensures
            r.body@ == gateway_offline_view(or_null(request_id)),
            r.retry_after == retry_after,
    {
        OfflineResponse { body: gateway_offline_body(request_id), retry_after }
    }

    /// The status code the answer is written with.
    pub fn status(&self) -> (s: u16)
        ensures
            s == 503,
    {
        503
    }
}

} // verus!
