//! The agent's native iMessage tools: what they offer, how a call of one
//! is read, what the Messages database's values mean, and the script that
//! sends a message.  Reading the database and running the script happen
//! outside; the answers' texts are decided here.

use vstd::prelude::*;
use vstd::string::StringExecFns;
use vstd::string::StrSliceExecFns;
use crate::http::{rfc3339_of, rfc3339_text};
use crate::json::{JsonValue, JsonView};
use crate::session::{replace_all, replace_text};
use crate::transport::same_text;

verus! {

/// Seconds from the Unix epoch to the Apple epoch (2001-01-01).
pub const APPLE_EPOCH_OFFSET: i64 = 978307200;

/// A Messages timestamp in Unix seconds: stamps above 10^18 count
/// nanoseconds, smaller ones seconds, both from the Apple epoch.
pub open spec fn apple_to_unix_spec(apple_time: i64) -> int {
    if apple_time > 1_000_000_000_000_000_000 {
        apple_time / 1_000_000_000 + APPLE_EPOCH_OFFSET
    } else {
        apple_time + APPLE_EPOCH_OFFSET
    }
}

/// A Messages timestamp in Unix seconds.
pub fn apple_time_to_unix(apple_time: i64) -> (t: i64)
    ensures
        t == apple_to_unix_spec(apple_time),
{
    if apple_time > 1_000_000_000_000_000_000 {
        apple_time / 1_000_000_000 + APPLE_EPOCH_OFFSET
    } else {
        apple_time + APPLE_EPOCH_OFFSET
    }
}

/// The instant `chrono` writes when a time cannot be represented: the Unix epoch.
pub open spec fn epoch_text() -> Seq<char> {
    "1970-01-01T00:00:00+00:00"@
}

/// The RFC 3339 text of a Messages timestamp, or of the Unix epoch where
/// the instant is out of range.
pub open spec fn apple_date_spec(apple_time: i64) -> Seq<char> {
    match rfc3339_of(apple_to_unix_spec(apple_time) as i64, 0) {
        Some(t) => t,
        None => epoch_text(),
    }
}

/// The RFC 3339 text of a Messages timestamp.
pub fn apple_date_text(apple_time: i64) -> (s: String)
    ensures
        s@ == apple_date_spec(apple_time),
{
    match rfc3339_text(apple_time_to_unix(apple_time), 0) {
        Some(t) => t,
        None => "1970-01-01T00:00:00+00:00".to_string(),
    }
}

/// A chat is a group when it has several participants or its identifier
/// starts with `chat`.
pub open spec fn is_group_spec(chat_identifier: Seq<char>, participants: nat) -> bool {
    participants > 1 || (chat_identifier.len() >= 4 && chat_identifier.take(4) == "chat"@)
}

/// A chat with more than one participant is a group, whatever its
/// identifier and however many participants it has; a chat of at most one
/// participant is a group exactly when its identifier starts with `chat`.
pub proof fn law_several_participants_make_a_group(chat_identifier: Seq<char>, participants: nat)
    ensures
        participants > 1 ==> is_group_spec(chat_identifier, participants),
        participants <= 1 ==> (is_group_spec(chat_identifier, participants) <==> (chat_identifier.len() >= 4
            && chat_identifier.subrange(0, 4) == "chat"@)),
{
    assert(chat_identifier.len() >= 4 ==> chat_identifier.take(4) =~= chat_identifier.subrange(0, 4));
}

/// Whether a chat is a group.
pub fn is_group(chat_identifier: &str, participants: usize) -> (b: bool)
    ensures
        b == is_group_spec(chat_identifier@, participants as nat),
{
    if participants > 1 {
        return true;
    }
    proof {
        reveal_strlit("chat");
    }
    let n = chat_identifier.unicode_len();
    if n < 4 {
        return false;
    }
    same_text(chat_identifier.substring_char(0, 4), "chat")
}

/// A conversation as the tools list it.
#[derive(Debug)]
pub struct Conversation {
    pub chat_id: String,
    pub display_name: Option<String>,
    pub participants: Vec<String>,
    pub last_message_date: Option<String>,
    pub is_group: bool,
}

/// A message as the tools list it.
#[derive(Debug)]
pub struct Message {
    pub id: i64,
    pub text: Option<String>,
    pub is_from_me: bool,
    pub sender: Option<String>,
    pub date: String,
    pub date_read: Option<String>,
    pub attachments: Vec<String>,
}

/// A chat as the database row gives it.
#[derive(Debug)]
pub struct ChatRow {
    pub chat_identifier: String,
    pub display_name: Option<String>,
    pub last_date: Option<i64>,
}

/// A message as the database row gives it.
#[derive(Debug)]
pub struct MessageRow {
    pub id: i64,
    pub text: Option<String>,
    pub is_from_me: i32,
    pub sender: Option<String>,
    pub date: i64,
    pub date_read: Option<i64>,
}

/// The conversation a chat row and its participants make.
pub fn conversation_of(row: ChatRow, participants: Vec<String>) -> (c: Conversation)
    ensures
        c.chat_id == row.chat_identifier,
        c.display_name == row.display_name,
        c.participants == participants,
        c.is_group == is_group_spec(row.chat_identifier@, participants@.len()),
        c.last_message_date is Some <==> row.last_date is Some,
        row.last_date matches Some(d) ==> c.last_message_date matches Some(t) && t@ == apple_date_spec(d),
{
    let group = is_group(row.chat_identifier.as_str(), participants.len());
    let last = match row.last_date {
        Some(d) => Some(apple_date_text(d)),
        None => None,
    };
    Conversation { chat_id: row.chat_identifier, display_name: row.display_name, participants, last_message_date: last, is_group: group }
}

/// The message a message row and its attachments make: sent by the user
/// exactly when the row's flag is 1.
pub fn message_of(row: MessageRow, attachments: Vec<String>) -> (m: Message)
    ensures
        m.id == row.id,
        m.text == row.text,
        m.is_from_me == (row.is_from_me == 1),
        m.sender == row.sender,
        m.date@ == apple_date_spec(row.date),
        m.date_read is Some <==> row.date_read is Some,
        row.date_read matches Some(d) ==> m.date_read matches Some(t) && t@ == apple_date_spec(d),
        m.attachments == attachments,
{
    let date_read = match row.date_read {
        Some(d) => Some(apple_date_text(d)),
        None => None,
    };
    Message {
        id: row.id,
        text: row.text,
        is_from_me: row.is_from_me == 1,
        sender: row.sender,
        date: apple_date_text(row.date),
        date_read,
        attachments,
    }
}

/// The messages of a chat, read newest first, put in the order they were sent.
pub fn chronological(newest_first: Vec<Message>) -> (r: Vec<Message>)
    ensures
        r@ == newest_first@.reverse(),
{
    let ghost orig = newest_first@;
    let mut rest = newest_first;
    let mut out: Vec<Message> = Vec::new();
    while rest.len() > 0
        invariant
            out@.len() + rest@.len() == orig.len(),
            rest@ == orig.take(rest@.len() as int),
            out@ == orig.skip(rest@.len() as int).reverse(),
        decreases rest@.len(),
    {
        let ghost n = rest@.len() as int;
        let m = rest.pop().unwrap();
        proof {
            assert(rest@ =~= orig.take(n - 1));
            assert(orig.skip(n - 1).reverse() =~= orig.skip(n).reverse().push(orig[n - 1]));
        }
        out.push(m);
    }
    assert(orig.skip(0) =~= orig);
    out
}

/// The pattern a text search matches messages with.
pub fn search_pattern(query: &str) -> (p: String)
    ensures
        p@ == "%"@ + query@ + "%"@,
{
    let mut p = "%".to_string();
    p.append(query);
    p.append("%");
    p
}

/// A call of one of the iMessage tools, read from its arguments.
#[derive(Debug)]
pub enum ImessageCall {
    ListConversations { limit: usize },
    GetMessages { chat_id: String, limit: usize },
    SearchMessages { query: String, limit: usize },
    SendMessage { recipient: String, message: String },
}

/// The member `key` of the arguments, when they are an object that has it.
pub open spec fn arg(args: Option<JsonView>, key: Seq<char>) -> Option<JsonView> {
    match args {
        Some(a) => a.member(key),
        None => None,
    }
}

/// A text argument.
pub open spec fn text_arg(args: Option<JsonView>, key: Seq<char>) -> Option<Seq<char>> {
    match arg(args, key) {
        Some(v) => v.text(),
        None => None,
    }
}

/// The `limit` argument, or `default` where it is no non-negative integer.
pub open spec fn limit_arg(args: Option<JsonView>, default: u64) -> usize {
    match arg(args, "limit"@) {
        Some(v) => match v.unsigned() {
            Some(n) => n as usize,
            None => default as usize,
        },
        None => default as usize,
    }
}

fn get_text(args: Option<&JsonValue>, key: &str) -> (r: Option<String>)
    ensures
        match r {
            Some(t) => text_arg(opt_view(args), key@) == Some(t@),
            None => text_arg(opt_view(args), key@) is None,
        },
{
    match args {
        Some(a) => match a.get(key) {
            Some(v) => match v.as_str() {
                Some(t) => Some(t.to_string()),
                None => None,
            },
            None => None,
        },
        None => None,
    }
}

fn get_limit(args: Option<&JsonValue>, default: u64) -> (n: usize)
    ensures
        n == limit_arg(opt_view(args), default),
{
    match args {
        Some(a) => match a.get("limit") {
            Some(v) => match v.as_u64() {
                Some(n) => n as usize,
                None => default as usize,
            },
            None => default as usize,
        },
        None => default as usize,
    }
}

/// The view of optional arguments.
pub open spec fn opt_view(args: Option<&JsonValue>) -> Option<JsonView> {
    match args {
        Some(a) => Some(a@),
        None => None,
    }
}

/// How a request of the tool `name` with the arguments `args` reads.
pub open spec fn read_as(name: Seq<char>, args: Option<JsonView>, r: Result<ImessageCall, String>) -> bool {
    &&& name == "list_conversations"@ ==> (r matches Ok(ImessageCall::ListConversations { limit })
        && limit == limit_arg(args, 20))
    &&& name == "get_messages"@ ==> match text_arg(args, "chat_id"@) {
        Some(c) => r matches Ok(ImessageCall::GetMessages { chat_id, limit }) && chat_id@ == c && limit == limit_arg(args, 50),
        None => r matches Err(e) && e@ == "chat_id is required"@,
    }
    &&& name == "search_messages"@ ==> match text_arg(args, "query"@) {
        Some(q) => r matches Ok(ImessageCall::SearchMessages { query, limit }) && query@ == q && limit == limit_arg(args, 20),
        None => r matches Err(e) && e@ == "query is required"@,
    }
    &&& name == "send_message"@ ==> match (text_arg(args, "recipient"@), text_arg(args, "message"@)) {
        (Some(to), Some(m)) => r matches Ok(ImessageCall::SendMessage { recipient, message }) && recipient@ == to && message@ == m,
        (None, _) => r matches Err(e) && e@ == "recipient is required"@,
        (Some(_), None) => r matches Err(e) && e@ == "message is required"@,
    }
    &&& !is_imessage_tool(name) ==> (r matches Err(e) && e@ == "Unknown tool"@)
}

/// The call a tool request makes, or the message of the invalid-params
/// error that answers it: a missing text argument is "<name> is
/// required", a tool the agent does not have "Unknown tool".  Limits
/// default to 20 conversations, 50 messages of a chat and 20 search
/// results.
pub fn read_tool_call(name: &str, args: Option<&JsonValue>) -> (r: Result<ImessageCall, String>)
    ensures
        read_as(name@, opt_view(args), r),
{
    proof {
        reveal_strlit("list_conversations");
        reveal_strlit("get_messages");
        reveal_strlit("search_messages");
        reveal_strlit("send_message");
        assert("get_messages"@[0] != "list_conversations"@[0]);
        assert("search_messages"@[0] != "list_conversations"@[0]);
        assert("search_messages"@[0] != "get_messages"@[0]);
        assert("send_message"@[0] != "list_conversations"@[0]);
        assert("send_message"@[0] != "get_messages"@[0]);
        assert("send_message"@[2] != "search_messages"@[2]);
    }
    if same_text(name, "list_conversations") {
        Ok(ImessageCall::ListConversations { limit: get_limit(args, 20) })
    } else if same_text(name, "get_messages") {
        match get_text(args, "chat_id") {
            Some(chat_id) => Ok(ImessageCall::GetMessages { chat_id, limit: get_limit(args, 50) }),
            None => Err("chat_id is required".to_string()),
        }
    } else if same_text(name, "search_messages") {
        match get_text(args, "query") {
            Some(query) => Ok(ImessageCall::SearchMessages { query, limit: get_limit(args, 20) }),
            None => Err("query is required".to_string()),
        }
    } else if same_text(name, "send_message") {
        match get_text(args, "recipient") {
            None => Err("recipient is required".to_string()),
            Some(recipient) => match get_text(args, "message") {
                Some(message) => Ok(ImessageCall::SendMessage { recipient, message }),
                None => Err("message is required".to_string()),
            },
        }
    } else {
        Err("Unknown tool".to_string())
    }
}

/// The names of the iMessage tools.
pub open spec fn is_imessage_tool(name: Seq<char>) -> bool {
    name == "list_conversations"@ || name == "get_messages"@ || name == "search_messages"@ || name == "send_message"@
}

/// Whether `name` is one of the iMessage tools.
pub fn is_imessage_tool_name(name: &str) -> (b: bool)
    ensures
        b == is_imessage_tool(name@),
{
    same_text(name, "list_conversations") || same_text(name, "get_messages") || same_text(name, "search_messages")
        || same_text(name, "send_message")
}

/// The text of the error result of a call that failed with `detail`.
pub open spec fn failure_text(call: ImessageCall, detail: Seq<char>) -> Seq<char> {
    match call {
        ImessageCall::ListConversations { .. } => "Error listing conversations: "@ + detail,
        ImessageCall::GetMessages { .. } => "Error getting messages: "@ + detail,
        ImessageCall::SearchMessages { .. } => "Error searching messages: "@ + detail,
        ImessageCall::SendMessage { .. } => "Error sending message: "@ + detail,
    }
}

/// The error result's text for a call that failed with `detail`.
pub fn failure_message(call: &ImessageCall, detail: &str) -> (s: String)
    ensures
        s@ == failure_text(*call, detail@),
{
    let mut s = match call {
        ImessageCall::ListConversations { .. } => "Error listing conversations: ".to_string(),
        ImessageCall::GetMessages { .. } => "Error getting messages: ".to_string(),
        ImessageCall::SearchMessages { .. } => "Error searching messages: ".to_string(),
        ImessageCall::SendMessage { .. } => "Error sending message: ".to_string(),
    };
    s.append(detail);
    s
}

/// The confirmation of a sent message.
pub open spec fn sent_view(recipient: Seq<char>, message: Seq<char>) -> JsonView {
    JsonView::Object(seq![
        ("success"@, JsonView::Bool(true)),
        ("recipient"@, JsonView::Str(recipient)),
        ("message"@, JsonView::Str(message)),
    ])
}

/// The result of a sent message: `{"success": true, "recipient": ..., "message": ...}`.
pub fn sent_confirmation(recipient: &str, message: &str) -> (v: JsonValue)
    ensures
        v@ == sent_view(recipient@, message@),
{
    JsonValue::object3("success", JsonValue::Bool(true), "recipient", JsonValue::from_str(recipient), "message", JsonValue::from_str(message))
}

/// A text made safe inside an AppleScript string: double quotes escaped,
/// and for the message also line breaks.
pub open spec fn escape_quotes(s: Seq<char>) -> Seq<char> {
    replace_all(s, "\""@, "\\\""@)
}

/// The AppleScript that sends `message` to `recipient` with Messages.
pub open spec fn send_script_spec(recipient: Seq<char>, message: Seq<char>) -> Seq<char> {
    "\n        tell application \"Messages\"\n            set targetService to 1st account whose service type = iMessage\n            set targetBuddy to participant \""@
        + escape_quotes(recipient)
        + "\" of targetService\n            send \""@
        + replace_all(escape_quotes(message), "\n"@, "\\n"@)
        + "\" to targetBuddy\n        end tell\n        "@
}

/// The AppleScript that sends `message` to `recipient`.
pub fn send_script(recipient: &str, message: &str) -> (s: String)
    ensures
        s@ == send_script_spec(recipient@, message@),
{
    proof {
        reveal_strlit("\"");
        reveal_strlit("\n");
    }
    let to = replace_text(recipient, "\"", "\\\"");
    let quoted = replace_text(message, "\"", "\\\"");
    let body = replace_text(quoted.as_str(), "\n", "\\n");
    let mut s = "\n        tell application \"Messages\"\n            set targetService to 1st account whose service type = iMessage\n            set targetBuddy to participant \"".to_string();
    s.append(to.as_str());
    s.append("\" of targetService\n            send \"");
    s.append(body.as_str());
    s.append("\" to targetBuddy\n        end tell\n        ");
    s
}

/// A tool as the agent offers it: its name, what it does, and the JSON
/// schema of its arguments.
#[derive(Debug)]
pub struct ToolDescription {
    pub name: String,
    pub description: String,
    pub input_schema: JsonValue,
}

/// `{"type": t, "description": d}`.
pub open spec fn property_view(t: Seq<char>, d: Seq<char>) -> JsonView {
    JsonView::Object(seq![("type"@, JsonView::Str(t)), ("description"@, JsonView::Str(d))])
}

fn property(t: &str, d: &str) -> (v: JsonValue)
    ensures
        v@ == property_view(t@, d@),
{
    JsonValue::object2("type", JsonValue::from_str(t), "description", JsonValue::from_str(d))
}

/// An object schema of the given properties, with the required ones where
/// there are any.
pub open spec fn schema_view(props: Seq<(Seq<char>, JsonView)>, required: Seq<Seq<char>>) -> JsonView {
    if required.len() == 0 {
        JsonView::Object(seq![("type"@, JsonView::Str("object"@)), ("properties"@, JsonView::Object(props))])
    } else {
        JsonView::Object(seq![
            ("type"@, JsonView::Str("object"@)),
            ("properties"@, JsonView::Object(props)),
            ("required"@, JsonView::Array(required.map_values(|r: Seq<char>| JsonView::Str(r)))),
        ])
    }
}

/// The schemas of the four tools.
pub open spec fn list_conversations_schema() -> JsonView {
    schema_view(
        seq![("limit"@, property_view("integer"@, "Maximum number of conversations to return (default: 20)"@))],
        seq![],
    )
}

pub open spec fn get_messages_schema() -> JsonView {
    schema_view(
        seq![
            ("chat_id"@, property_view("string"@, "The chat identifier (e.g., '+1234567890' or 'chat123456')"@)),
            ("limit"@, property_view("integer"@, "Maximum number of messages to return (default: 50)"@)),
        ],
        seq!["chat_id"@],
    )
}

pub open spec fn search_messages_schema() -> JsonView {
    schema_view(
        seq![
            ("query"@, property_view("string"@, "Text to search for in messages"@)),
            ("limit"@, property_view("integer"@, "Maximum number of results (default: 20)"@)),
        ],
        seq!["query"@],
    )
}

pub open spec fn send_message_schema() -> JsonView {
    schema_view(
        seq![
            ("recipient"@, property_view("string"@, "Phone number or email address to send to"@)),
            ("message"@, property_view("string"@, "The message text to send"@)),
        ],
        seq!["recipient"@, "message"@],
    )
}

/// The iMessage tools, in the order they are offered: name, description
/// and argument schema of each.
pub open spec fn imessage_tools() -> Seq<(Seq<char>, Seq<char>, JsonView)> {
    seq![
        ("list_conversations"@, "List recent iMessage conversations. Returns chat IDs, participants, and last message date."@,
            list_conversations_schema()),
        ("get_messages"@, "Get messages from a specific conversation by chat_id."@, get_messages_schema()),
        ("search_messages"@, "Search for messages containing specific text across all conversations."@,
            search_messages_schema()),
        ("send_message"@, "Send an iMessage to a phone number or email address."@, send_message_schema()),
    ]
}

fn strings1(a: &str) -> (v: JsonValue)
    ensures
        v@ == JsonView::Array(seq![a@].map_values(|r: Seq<char>| JsonView::Str(r))),
{
    let mut items: Vec<JsonValue> = Vec::new();
    items.push(JsonValue::from_str(a));
    let ghost iv = crate::json::items_view(items@);
    proof {
        JsonValue::lemma_array_view(items);
        assert(iv =~= seq![a@].map_values(|r: Seq<char>| JsonView::Str(r)));
    }
    JsonValue::Array(items)
}

fn strings2(a: &str, b: &str) -> (v: JsonValue)
    ensures
        v@ == JsonView::Array(seq![a@, b@].map_values(|r: Seq<char>| JsonView::Str(r))),
{
    let mut items: Vec<JsonValue> = Vec::new();
    items.push(JsonValue::from_str(a));
    items.push(JsonValue::from_str(b));
    let ghost iv = crate::json::items_view(items@);
    proof {
        JsonValue::lemma_array_view(items);
        assert(iv =~= seq![a@, b@].map_values(|r: Seq<char>| JsonView::Str(r)));
    }
    JsonValue::Array(items)
}

fn tool(name: &str, description: &str, schema: JsonValue) -> (t: ToolDescription)
    ensures
        t.name@ == name@,
        t.description@ == description@,
        t.input_schema == schema,
{
    ToolDescription { name: name.to_string(), description: description.to_string(), input_schema: schema }
}

/// The iMessage tools the agent offers.
pub fn get_tools() -> (tools: Vec<ToolDescription>)
    ensures
        tools@.len() == imessage_tools().len(),
        forall|i: int| 0 <= i < tools@.len() ==> (#[trigger] tools@[i]).name@ == imessage_tools()[i].0
            && tools@[i].description@ == imessage_tools()[i].1 && tools@[i].input_schema@ == imessage_tools()[i].2,
{
    let list = JsonValue::object2(
        "type",
        JsonValue::from_str("object"),
        "properties",
        JsonValue::object1("limit", property("integer", "Maximum number of conversations to return (default: 20)")),
    );
    let get = JsonValue::object3(
        "type",
        JsonValue::from_str("object"),
        "properties",
        JsonValue::object2(
            "chat_id",
            property("string", "The chat identifier (e.g., '+1234567890' or 'chat123456')"),
            "limit",
            property("integer", "Maximum number of messages to return (default: 50)"),
        ),
        "required",
        strings1("chat_id"),
    );
    let search = JsonValue::object3(
        "type",
        JsonValue::from_str("object"),
        "properties",
        JsonValue::object2(
            "query",
            property("string", "Text to search for in messages"),
            "limit",
            property("integer", "Maximum number of results (default: 20)"),
        ),
        "required",
        strings1("query"),
    );
    let send = JsonValue::object3(
        "type",
        JsonValue::from_str("object"),
        "properties",
        JsonValue::object2(
            "recipient",
            property("string", "Phone number or email address to send to"),
            "message",
            property("string", "The message text to send"),
        ),
        "required",
        strings2("recipient", "message"),
    );
    proof {
        assert(list@ == list_conversations_schema());
        assert(get@ == get_messages_schema());
        assert(search@ == search_messages_schema());
        assert(send@ == send_message_schema());
    }
    let mut tools: Vec<ToolDescription> = Vec::new();
    tools.push(tool(
        "list_conversations",
        "List recent iMessage conversations. Returns chat IDs, participants, and last message date.",
        list,
    ));
    tools.push(tool("get_messages", "Get messages from a specific conversation by chat_id.", get));
    tools.push(tool("search_messages", "Search for messages containing specific text across all conversations.", search));
    tools.push(tool("send_message", "Send an iMessage to a phone number or email address.", send));
    tools
}

} // verus!
