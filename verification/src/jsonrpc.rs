//! JSON-RPC 2.0 envelopes as the gateway builds and reads them.

use vstd::prelude::*;
use crate::json::{fields_view, JsonValue, JsonView};
use crate::protocol::McpResponseMessage;
use crate::tokens::hex_digit;
use vstd::arithmetic::power::pow;

verus! {

/// Which of the 32 hexadecimal digits of a UUID stands at position `i` of
/// its hyphenated text (positions 8, 13, 18 and 23 hold hyphens).
pub open spec fn uuid_digit_index(i: int) -> int {
    if i < 8 {
        i
    } else if i < 13 {
        i - 1
    } else if i < 18 {
        i - 2
    } else if i < 23 {
        i - 3
    } else {
        i - 4
    }
}

/// The `j`-th hexadecimal digit of `id`, most significant first.
pub open spec fn uuid_nibble(id: u128, j: int) -> int {
    (id as int / pow(16, (31 - j) as nat)) % 16
}

/// The text of the UUID whose 128-bit value is `id`: its 16 bytes, most
/// significant first, as 32 lower-case hexadecimal digits in groups of
/// 8, 4, 4, 4 and 12 joined by hyphens.
pub open spec fn uuid_text_spec(id: u128) -> Seq<char> {
    Seq::new(36, |i: int|
        if i == 8 || i == 13 || i == 18 || i == 23 {
            '-'
        } else {
            hex_digit(uuid_nibble(id, uuid_digit_index(i)))
        })
}

/// Formats the UUID with value `id` (`uuid::Uuid::from_u128`, whose bytes
/// are `id` big-endian) through its `Display`, the hyphenated lower-case
/// form.
#[verifier::external_body]
pub(crate) fn uuid_text(id: u128) -> (s: String)
    ensures
        s@ == uuid_text_spec(id),
{
    uuid::Uuid::from_u128(id).to_string()
}

/// `{"jsonrpc": "2.0", "id": id, "method": method, "params": params}`.
pub open spec fn request_view(id: JsonView, method: Seq<char>, params: JsonView) -> JsonView {
    JsonView::Object(
        seq![
            ("jsonrpc"@, JsonView::Str("2.0"@)),
            ("id"@, id),
            ("method"@, JsonView::Str(method)),
            ("params"@, params),
        ],
    )
}

/// `{"jsonrpc": "2.0", "id": id, "result": result}`.
pub open spec fn result_envelope_view(id: JsonView, result: JsonView) -> JsonView {
    JsonView::Object(seq![("jsonrpc"@, JsonView::Str("2.0"@)), ("id"@, id), ("result"@, result)])
}

/// The view of an optional value, `null` when absent.
pub open spec fn or_null(v: Option<JsonValue>) -> JsonView {
    match v {
        Some(x) => x@,
        None => JsonView::Null,
    }
}

/// A JSON-RPC request.
pub fn request(id: JsonValue, method: &str, params: JsonValue) -> (r: JsonValue)
    ensures
        r@ == request_view(id@, method@, params@),
{
    let ghost idv = id@;
    let ghost pv = params@;
    let mut fields: Vec<(String, JsonValue)> = Vec::new();
    fields.push(("jsonrpc".to_string(), JsonValue::from_str("2.0")));
    fields.push(("id".to_string(), id));
    fields.push(("method".to_string(), JsonValue::from_str(method)));
    fields.push(("params".to_string(), params));
    proof {
        JsonValue::lemma_object_view(fields);
        assert(fields_view(fields@) =~= request_view(idv, method@, pv)->Object_0);
    }
    JsonValue::Object(fields)
}

/// A JSON-RPC success response; an absent id is written as `null`.
pub fn result_envelope(id: Option<JsonValue>, result: JsonValue) -> (r: JsonValue)
    ensures
        r@ == result_envelope_view(or_null(id), result@),
{
    let ghost idv = or_null(id);
    let ghost rv = result@;
    let idj = match id {
        Some(x) => x,
        None => JsonValue::Null,
    };
    let mut fields: Vec<(String, JsonValue)> = Vec::new();
    fields.push(("jsonrpc".to_string(), JsonValue::from_str("2.0")));
    fields.push(("id".to_string(), idj));
    fields.push(("result".to_string(), result));
    proof {
        JsonValue::lemma_object_view(fields);
        assert(fields_view(fields@) =~= result_envelope_view(idv, rv)->Object_0);
    }
    JsonValue::Object(fields)
}

/// The request the server forwards to a device: its correlation id,
/// written as a UUID, is the request's id.
pub fn forwarded_payload(correlation_id: u128, method: &str, params: JsonValue) -> (r: JsonValue)
    ensures
        r@ == request_view(JsonView::Str(uuid_text_spec(correlation_id)), method@, params@),
{
    request(JsonValue::String(uuid_text(correlation_id)), method, params)
}

/// The id of a request, copied (`payload.get("id").cloned()`).
pub fn request_id(payload: &JsonValue) -> (r: Option<JsonValue>)
    ensures
        match r {
            Some(v) => payload@.member("id"@) == Some(v@),
            None => payload@.member("id"@) is None,
        },
{
    match payload.get("id") {
        Some(v) => Some(v.duplicate()),
        None => None,
    }
}

/// Why a forwarded request produced no result.
#[derive(Debug)]
pub enum ForwardError {
    /// The device reported this error.
    Remote(String),
    /// The response carried neither a payload nor an error.
    EmptyResponse,
    /// The payload had no `result` member.
    NoResult,
}

impl ForwardError {
    /// The error message the gateway reports.
    pub fn message(&self) -> (m: String)
        ensures
            m@ == match *self {
                ForwardError::Remote(t) => t@,
                ForwardError::EmptyResponse => "Empty response"@,
                ForwardError::NoResult => "No result in response"@,
            },
    {
        match self {
            ForwardError::Remote(t) => t.clone(),
            ForwardError::EmptyResponse => "Empty response".to_string(),
            ForwardError::NoResult => "No result in response".to_string(),
        }
    }
}

/// What a device's response to a forwarded request yields: its error, or
/// else the `result` member of its payload.
pub fn forward_result(response: McpResponseMessage) -> (r: Result<JsonValue, ForwardError>)
    ensures
        match response.error {
            Some(e) => r matches Err(ForwardError::Remote(t)) && t@ == e.message@,
            None => match response.payload {
                None => r matches Err(ForwardError::EmptyResponse),
                Some(p) => match p@.member("result"@) {
                    Some(v) => r matches Ok(x) && x@ == v,
                    None => r matches Err(ForwardError::NoResult),
                },
            },
        },
{
    if let Some(e) = response.error {
        return Err(ForwardError::Remote(e.message));
    }
    match response.payload {
        None => Err(ForwardError::EmptyResponse),
        Some(p) => match p.get("result") {
            Some(v) => Ok(v.duplicate()),
            None => Err(ForwardError::NoResult),
        },
    }
}

} // verus!
