use portal::agent::imessage::{
    apple_date_text, apple_time_to_unix, chronological, conversation_of, failure_message, get_tools, is_group,
    message_of, read_tool_call, search_pattern, send_script, sent_confirmation, ChatRow, ImessageCall, Message,
    MessageRow, APPLE_EPOCH_OFFSET,
};
use portal::agent::native_tools::NativeTools;
use portal::json::{JsonNumber, JsonValue};

fn args(fields: Vec<(&str, JsonValue)>) -> JsonValue {
    JsonValue::Object(fields.into_iter().map(|(k, v)| (k.to_string(), v)).collect())
}

fn text(s: &str) -> JsonValue {
    JsonValue::String(s.to_string())
}

#[test]
fn apple_timestamps_become_unix_time() {
    assert_eq!(apple_time_to_unix(0), 978307200);
    assert_eq!(apple_time_to_unix(100), 978307300);
    assert_eq!(apple_time_to_unix(700_000_000_000_000_000), 700_000_000_000_000_000 + APPLE_EPOCH_OFFSET);
    assert_eq!(apple_time_to_unix(2_000_000_000_000_000_000), 2_000_000_000 + 978307200);
    assert_eq!(apple_date_text(0), "2001-01-01T00:00:00+00:00");
    assert_eq!(apple_date_text(100_000_000_000_000_000), "1970-01-01T00:00:00+00:00");
}

#[test]
fn groups_are_recognised() {
    assert!(is_group("chat123", 1));
    assert!(is_group("+15551234", 2));
    assert!(!is_group("+15551234", 1));
    assert!(!is_group("cha", 0));
}

#[test]
fn rows_become_records() {
    let c = conversation_of(
        ChatRow { chat_identifier: "chat1".to_string(), display_name: None, last_date: Some(0) },
        vec!["a".to_string()],
    );
    assert!(c.is_group);
    assert_eq!(c.last_message_date.as_deref(), Some("2001-01-01T00:00:00+00:00"));
    let m = message_of(
        MessageRow { id: 7, text: Some("hi".to_string()), is_from_me: 1, sender: None, date: 0, date_read: None },
        vec![],
    );
    assert!(m.is_from_me);
    assert_eq!(m.date, "2001-01-01T00:00:00+00:00");
    assert!(m.date_read.is_none());
    let n = message_of(
        MessageRow { id: 8, text: None, is_from_me: 0, sender: Some("b".to_string()), date: 0, date_read: Some(1) },
        vec![],
    );
    assert!(!n.is_from_me);
    assert_eq!(n.date_read.as_deref(), Some("2001-01-01T00:00:01+00:00"));
}

fn msg(id: i64) -> Message {
    Message { id, text: None, is_from_me: false, sender: None, date: String::new(), date_read: None, attachments: vec![] }
}

#[test]
fn chat_messages_come_oldest_first() {
    let r = chronological(vec![msg(3), msg(2), msg(1)]);
    assert_eq!(r.iter().map(|m| m.id).collect::<Vec<_>>(), vec![1, 2, 3]);
    assert_eq!(search_pattern("lunch"), "%lunch%");
}

#[test]
fn tool_calls_are_read_with_defaults() {
    match read_tool_call("list_conversations", None).ok().unwrap() {
        ImessageCall::ListConversations { limit } => assert_eq!(limit, 20),
        _ => panic!(),
    }
    let a = args(vec![("chat_id", text("+1")), ("limit", JsonValue::Number(JsonNumber::PosInt(5)))]);
    match read_tool_call("get_messages", Some(&a)).ok().unwrap() {
        ImessageCall::GetMessages { chat_id, limit } => assert_eq!((chat_id.as_str(), limit), ("+1", 5)),
        _ => panic!(),
    }
    let a = args(vec![("chat_id", text("+1")), ("limit", text("many"))]);
    match read_tool_call("get_messages", Some(&a)).ok().unwrap() {
        ImessageCall::GetMessages { limit, .. } => assert_eq!(limit, 50),
        _ => panic!(),
    }
    assert_eq!(read_tool_call("get_messages", None).err().unwrap(), "chat_id is required");
    assert_eq!(read_tool_call("search_messages", Some(&args(vec![]))).err().unwrap(), "query is required");
    match read_tool_call("search_messages", Some(&args(vec![("query", text("x"))]))).ok().unwrap() {
        ImessageCall::SearchMessages { query, limit } => assert_eq!((query.as_str(), limit), ("x", 20)),
        _ => panic!(),
    }
    assert_eq!(read_tool_call("send_message", None).err().unwrap(), "recipient is required");
    assert_eq!(
        read_tool_call("send_message", Some(&args(vec![("recipient", text("+1"))]))).err().unwrap(),
        "message is required"
    );
    assert_eq!(read_tool_call("delete_all", None).err().unwrap(), "Unknown tool");
}

#[test]
fn failures_and_confirmations_are_worded() {
    let call = ImessageCall::SearchMessages { query: "x".to_string(), limit: 1 };
    assert_eq!(failure_message(&call, "locked"), "Error searching messages: locked");
    let call = ImessageCall::SendMessage { recipient: "a".to_string(), message: "b".to_string() };
    assert_eq!(failure_message(&call, "no"), "Error sending message: no");
    assert_eq!(
        sent_confirmation("+1", "hi"),
        args(vec![("success", JsonValue::Bool(true)), ("recipient", text("+1")), ("message", text("hi"))])
    );
}

#[test]
fn the_send_script_escapes_quotes_and_newlines() {
    let s = send_script("Bob \"B\"", "line1\n\"quoted\"");
    assert!(s.contains("participant \"Bob \\\"B\\\"\" of targetService"));
    assert!(s.contains("send \"line1\\n\\\"quoted\\\"\" to targetBuddy"));
    assert!(s.starts_with("\n        tell application \"Messages\"\n"));
    assert!(s.ends_with("end tell\n        "));
}

#[test]
fn the_four_tools_are_offered() {
    let tools = get_tools();
    let names: Vec<&str> = tools.iter().map(|t| t.name.as_str()).collect();
    assert_eq!(names, vec!["list_conversations", "get_messages", "search_messages", "send_message"]);
    match &tools[1].input_schema {
        JsonValue::Object(f) => {
            assert_eq!(f[0], ("type".to_string(), text("object")));
            assert_eq!(f[2], ("required".to_string(), JsonValue::Array(vec![text("chat_id")])));
        },
        _ => panic!("a schema is an object"),
    }
}

#[test]
fn native_tools_exist_only_with_the_database() {
    let off = NativeTools::new(None);
    assert!(off.get_tools().is_empty());
    assert_eq!(off.route_tool_call("get_messages", None).err().unwrap(), "Unknown native tool: get_messages");
    let on = NativeTools::new(Some("/db".to_string()));
    assert_eq!(on.get_tools().len(), 4);
    assert_eq!(on.route_tool_call("nope", None).err().unwrap(), "Unknown native tool: nope");
    assert_eq!(on.route_tool_call("get_messages", None).err().unwrap(), "chat_id is required");
}
