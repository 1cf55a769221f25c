//! The command transport: requests that expect a response, responses,
//! and fire-and-forget events; how incoming messages are dispatched, and
//! how responses are matched with the requests that wait for them.

use vstd::prelude::*;
use vstd::string::StringExecFns;
use std::collections::HashSet;
use crate::commands::{
    agent_command_name, server_command_name, server_event_name, AgentCommandKind, AgentReady, DiagnosticsResponse,
    LogEvent, McpRequest, McpResponse, McpServerStatusChanged, McpStatusResponse, OpenSettings, OpenSettingsResponse,
    RestartAgentResponse, RestartMcpServer, RestartMcpServerResponse, ServerCommandKind, ServerEventKind,
    UpdateMcpConfig, UpdateMcpConfigResponse,
};
use crate::json::{JsonValue, JsonView};

verus! {

broadcast use vstd::std_specs::hash::group_hash_axioms;

/// A transport message.
#[derive(Debug)]
pub enum Message {
    /// A command that expects a `Response` with the same id.
    Request { id: u128, name: String, payload: JsonValue },
    /// The answer to a request: a payload, or an error.
    Response { id: u128, payload: Option<JsonValue>, error: Option<String> },
    /// A notification that expects no answer.
    Event { name: String, payload: JsonValue },
}

/// Why a command failed.
#[derive(Debug)]
pub struct CommandError {
    pub message: String,
}

/// The result of a command.
pub type CommandResult<T> = Result<T, CommandError>;

impl From<String> for CommandError {
    fn from(message: String) -> (e: Self) {
        CommandError { message }
    }
}

impl vstd::std_specs::convert::FromSpecImpl<String> for CommandError {
    open spec fn obeys_from_spec() -> bool {
        true
    }

    open spec fn from_spec(v: String) -> CommandError {
        CommandError { message: v }
    }
}

impl CommandError {
    /// An error with the given message.
    pub fn from_text(message: &str) -> (e: CommandError)
        ensures
            e.message@ == message@,
    {
        CommandError { message: message.to_string() }
    }
}

/// Whether two texts are equal.
pub fn same_text(a: &str, b: &str) -> (r: bool)
    ensures
        r == (a@ == b@),
{
    a.to_string() == b.to_string()
}

/// The error for a command name nobody handles.
pub open spec fn unknown_command_message(name: Seq<char>) -> Seq<char> {
    "unknown command: "@ + name
}

fn unknown_command(name: &str) -> (e: CommandError)
    ensures
        e.message@ == unknown_command_message(name@),
{
    let mut m = "unknown command: ".to_string();
    m.append(name);
    CommandError { message: m }
}

/// The agent command travelling under `name`.
pub fn classify_agent_command(name: &str) -> (r: Result<AgentCommandKind, CommandError>)
    ensures
        match r {
            Ok(k) => agent_command_name(k) == name@,
            Err(e) => (forall|k: AgentCommandKind| agent_command_name(k) != name@)
                && e.message@ == unknown_command_message(name@),
        },
{
    if same_text(name, "get_diagnostics") {
        Ok(AgentCommandKind::GetDiagnostics)
    } else if same_text(name, "open_settings") {
        Ok(AgentCommandKind::OpenSettings)
    } else if same_text(name, "get_mcp_status") {
        Ok(AgentCommandKind::GetMcpStatus)
    } else if same_text(name, "update_mcp_config") {
        Ok(AgentCommandKind::UpdateMcpConfig)
    } else if same_text(name, "restart_agent") {
        Ok(AgentCommandKind::RestartAgent)
    } else if same_text(name, "restart_mcp_server") {
        Ok(AgentCommandKind::RestartMcpServer)
    } else {
        Err(unknown_command(name))
    }
}

/// The server command travelling under `name`.
pub fn classify_server_command(name: &str) -> (r: Result<ServerCommandKind, CommandError>)
    ensures
        match r {
            Ok(k) => server_command_name(k) == name@,
            Err(e) => (forall|k: ServerCommandKind| server_command_name(k) != name@)
                && e.message@ == unknown_command_message(name@),
        },
{
    if same_text(name, "mcp_request") {
        Ok(ServerCommandKind::McpRequest)
    } else {
        Err(unknown_command(name))
    }
}

/// The server event travelling under `name`; `None` for events nobody handles.
pub fn classify_server_event(name: &str) -> (r: Option<ServerEventKind>)
    ensures
        match r {
            Some(k) => server_event_name(k) == name@,
            None => forall|k: ServerEventKind| server_event_name(k) != name@,
        },
{
    if same_text(name, "log") {
        Some(ServerEventKind::Log)
    } else if same_text(name, "mcp_server_status_changed") {
        Some(ServerEventKind::McpServerStatusChanged)
    } else if same_text(name, "agent_ready") {
        Some(ServerEventKind::AgentReady)
    } else {
        None
    }
}

/// The response that answers request `id` with `result`.
pub open spec fn reply_spec(id: u128, result: Result<JsonValue, CommandError>) -> Message {
    match result {
        Ok(p) => Message::Response { id, payload: Some(p), error: None },
        Err(e) => Message::Response { id, payload: None, error: Some(e.message) },
    }
}

impl Message {
    /// The response that answers request `id` with `result`.
    pub fn reply(id: u128, result: Result<JsonValue, CommandError>) -> (m: Message)
        ensures
            m == reply_spec(id, result),
    {
        match result {
            Ok(p) => Message::Response { id, payload: Some(p), error: None },
            Err(e) => Message::Response { id, payload: None, error: Some(e.message) },
        }
    }

    /// A request for the command `name`.
    pub fn request(id: u128, name: &str, payload: JsonValue) -> (m: Message)
        ensures
            m matches Message::Request { id: i, name: n, payload: p } && i == id && n@ == name@ && p == payload,
    {
        Message::Request { id, name: name.to_string(), payload }
    }

    /// An event `name`.
    pub fn event(name: &str, payload: JsonValue) -> (m: Message)
        ensures
            m matches Message::Event { name: n, payload: p } && n@ == name@ && p == payload,
    {
        Message::Event { name: name.to_string(), payload }
    }
}

/// The commands an agent handles, as its handler implements them.
pub trait AgentCommands {
    fn get_diagnostics(&self) -> CommandResult<DiagnosticsResponse>;

    fn open_settings(&self, cmd: OpenSettings) -> CommandResult<OpenSettingsResponse>;

    fn get_mcp_status(&self) -> CommandResult<McpStatusResponse>;

    fn update_mcp_config(&mut self, cmd: UpdateMcpConfig) -> CommandResult<UpdateMcpConfigResponse>;

    fn restart_agent(&self) -> CommandResult<RestartAgentResponse>;

    fn restart_mcp_server(&mut self, cmd: RestartMcpServer) -> CommandResult<RestartMcpServerResponse>;
}

/// The commands the server handles, sent by agents.
pub trait ServerCommands {
    fn mcp_request(&self, cmd: McpRequest) -> CommandResult<McpResponse>;
}

/// The events the server handles, sent by agents.
pub trait ServerEvents {
    fn on_log(&mut self, event: LogEvent);

    fn on_mcp_server_status_changed(&mut self, event: McpServerStatusChanged);

    fn on_agent_ready(&mut self, event: AgentReady);
}

/// What to do with a message an agent received.
#[derive(Debug)]
pub enum AgentDispatch {
    /// Run command `kind` with `payload`, then answer request `id` with `Message::reply`.
    Run { id: u128, kind: AgentCommandKind, payload: JsonValue },
    /// Send this answer at once.
    Reply(Message),
    /// Nothing to do.
    Ignore,
}

/// What to do with a message the server received.
#[derive(Debug)]
pub enum ServerDispatch {
    /// Run command `kind` with `payload`, then answer request `id` with `Message::reply`.
    Run { id: u128, kind: ServerCommandKind, payload: JsonValue },
    /// Handle event `kind` with `payload`; no answer.
    Notify { kind: ServerEventKind, payload: JsonValue },
    /// Send this answer at once.
    Reply(Message),
    /// Nothing to do.
    Ignore,
}

/// Dispatches the messages an agent receives to its command handler.
pub struct Dispatcher<H> {
    handler: std::sync::Arc<H>,
}

impl<H> Dispatcher<H> {
    /// A dispatcher for `handler`.
    pub fn new(handler: H) -> (d: Dispatcher<H>)
        ensures
            *d.handler_spec() == handler,
    {
        Dispatcher { handler: std::sync::Arc::new(handler) }
    }

    /// The handler commands are dispatched to.
    pub closed spec fn handler_spec(&self) -> std::sync::Arc<H> {
        self.handler
    }

    /// The handler commands are dispatched to.
    pub fn handler(&self) -> (h: &H)
        ensures
            *h == *self.handler_spec(),
    {
        &self.handler
    }

    /// What to do with `msg`: a request for a known command is run, a
    /// request for an unknown command is answered with an error, anything
    /// else is ignored.
    pub fn route(&self, msg: Message) -> (d: AgentDispatch)
        ensures
            match msg {
                Message::Request { id, name, payload } => {
                    if exists|k: AgentCommandKind| agent_command_name(k) == name@ {
                        d matches AgentDispatch::Run { id: i, kind, payload: p } && i == id
                            && agent_command_name(kind) == name@ && p == payload
                    } else {
                        d matches AgentDispatch::Reply(Message::Response { id: i, payload: None, error: Some(e) })
                            && i == id && e@ == unknown_command_message(name@)
                    }
                },
                _ => d is Ignore,
            },
    {
        match msg {
            Message::Request { id, name, payload } => match classify_agent_command(name.as_str()) {
                Ok(kind) => AgentDispatch::Run { id, kind, payload },
                Err(e) => AgentDispatch::Reply(Message::reply(id, Err(e))),
            },
            _ => AgentDispatch::Ignore,
        }
    }
}

/// Dispatches the messages the server receives to its handlers.
pub struct ServerDispatcher<H> {
    handler: std::sync::Arc<H>,
}

impl<H> ServerDispatcher<H> {
    /// A dispatcher for `handler`.
    pub fn new(handler: H) -> (d: ServerDispatcher<H>)
        ensures
            *d.handler_spec() == handler,
    {
        ServerDispatcher { handler: std::sync::Arc::new(handler) }
    }

    /// The handler commands and events are dispatched to.
    pub closed spec fn handler_spec(&self) -> std::sync::Arc<H> {
        self.handler
    }

    /// The handler commands and events are dispatched to.
    pub fn handler(&self) -> (h: &H)
        ensures
            *h == *self.handler_spec(),
    {
        &self.handler
    }

    /// What to do with `msg`: requests are run or refused as for an agent,
    /// known events are handled, unknown events and responses are ignored.
    pub fn route(&self, msg: Message) -> (d: ServerDispatch)
        ensures
            match msg {
                Message::Request { id, name, payload } => {
                    if exists|k: ServerCommandKind| server_command_name(k) == name@ {
                        d matches ServerDispatch::Run { id: i, kind, payload: p } && i == id
                            && server_command_name(kind) == name@ && p == payload
                    } else {
                        d matches ServerDispatch::Reply(Message::Response { id: i, payload: None, error: Some(e) })
                            && i == id && e@ == unknown_command_message(name@)
                    }
                },
                Message::Event { name, payload } => {
                    if exists|k: ServerEventKind| server_event_name(k) == name@ {
                        d matches ServerDispatch::Notify { kind, payload: p } && server_event_name(kind) == name@
                            && p == payload
                    } else {
                        d is Ignore
                    }
                },
                Message::Response { .. } => d is Ignore,
            },
    {
        match msg {
            Message::Request { id, name, payload } => match classify_server_command(name.as_str()) {
                Ok(kind) => ServerDispatch::Run { id, kind, payload },
                Err(e) => ServerDispatch::Reply(Message::reply(id, Err(e))),
            },
            Message::Event { name, payload } => match classify_server_event(name.as_str()) {
                Some(kind) => ServerDispatch::Notify { kind, payload },
                None => ServerDispatch::Ignore,
            },
            Message::Response { .. } => ServerDispatch::Ignore,
        }
    }
}

/// The view of the result a waiting request receives.
pub enum ResultView {
    Value(JsonView),
    Failure(Seq<char>),
}

/// The view of a command result.
pub open spec fn result_view(r: Result<JsonValue, CommandError>) -> ResultView {
    match r {
        Ok(p) => ResultView::Value(p@),
        Err(e) => ResultView::Failure(e.message@),
    }
}

/// The result a response carries: its payload, else its error, else null.
pub open spec fn response_result(payload: Option<JsonValue>, error: Option<String>) -> ResultView {
    match payload {
        Some(p) => ResultView::Value(p@),
        None => match error {
            Some(e) => ResultView::Failure(e@),
            None => ResultView::Value(JsonView::Null),
        },
    }
}

/// Matching `msg` against the waiting requests `ids`: the ids that wait
/// afterwards, and the request that was answered with the result it receives.
pub open spec fn completion(ids: Set<u128>, msg: Message) -> (Set<u128>, Option<(u128, ResultView)>) {
    match msg {
        Message::Response { id, payload, error } => {
            if ids.contains(id) {
                (ids.remove(id), Some((id, response_result(payload, error))))
            } else {
                (ids, None)
            }
        },
        _ => (ids, None),
    }
}

/// The requests that still wait for their response.
pub struct PendingRequests {
    pending: HashSet<u128>,
}

impl PendingRequests {
    /// The ids of the waiting requests.
    pub closed spec fn ids(&self) -> Set<u128> {
        self.pending@
    }

    /// No request is waiting.
    pub fn new() -> (p: PendingRequests)
        ensures
            p.ids() == Set::<u128>::empty(),
    {
        PendingRequests { pending: HashSet::new() }
    }

    /// Request `id` now waits for its response.
    pub fn register(&mut self, id: u128)
        ensures
            final(self).ids() == old(self).ids().insert(id),
    {
        self.pending.insert(id);
    }

    /// Whether request `id` waits.
    pub fn is_pending(&self, id: u128) -> (b: bool)
        ensures
            b == self.ids().contains(id),
    {
        self.pending.contains(&id)
    }

    /// Matches `msg` with the request it answers.  When `msg` is the
    /// response to a waiting request, that request stops waiting and its
    /// id is returned with the result it receives: the payload, else the
    /// error, else null.  Anything else changes nothing and yields `None`.
    pub fn complete(&mut self, msg: &Message) -> (r: Option<(u128, Result<JsonValue, CommandError>)>)
        ensures
            final(self).ids() == completion(old(self).ids(), *msg).0,
            match r {
                Some((i, res)) => completion(old(self).ids(), *msg).1 == Some((i, result_view(res))),
                None => completion(old(self).ids(), *msg).1 is None,
            },
    {
        match msg {
            Message::Response { id, payload, error } => {
                if self.pending.remove(id) {
                    let result = match (payload, error) {
                        (Some(p), _) => Ok(p.duplicate()),
                        (None, Some(e)) => Err(CommandError { message: e.clone() }),
                        (None, None) => Ok(JsonValue::Null),
                    };
                    Some((*id, result))
                } else {
                    None
                }
            },
            _ => None,
        }
    }

    /// The number of waiting requests.
    pub fn len(&self) -> (n: usize)
        ensures
            n == self.ids().len(),
    {
        self.pending.len()
    }
}

impl Default for PendingRequests {
    fn default() -> (p: Self)
        ensures
            p.ids() == Set::<u128>::empty(),
    {
        PendingRequests::new()
    }
}

/// A response that `Message::reply` builds gives the waiting request
/// exactly the result it was built from, and the request stops waiting;
/// the same response arriving again is not delivered a second time.
pub proof fn law_reply_delivered_once(ids: Set<u128>, id: u128, result: Result<JsonValue, CommandError>)
    requires
        ids.contains(id),
    ensures
        completion(ids, reply_spec(id, result)) == (ids.remove(id), Some((id, result_view(result)))),
        completion(ids.remove(id), reply_spec(id, result)) == (ids.remove(id), None::<(u128, ResultView)>),
{
}

/// A request registered and then answered through `Message::reply`
/// receives the result it was answered with, and only it stops waiting.
pub proof fn law_register_then_reply(ids: Set<u128>, id: u128, result: Result<JsonValue, CommandError>)
    ensures
        completion(ids.insert(id), reply_spec(id, result)) == (ids.remove(id), Some((id, result_view(result)))),
{
    assert(ids.insert(id).remove(id) =~= ids.remove(id));
}

/// Messages other than responses, and responses to requests that do not
/// wait, leave the waiting requests as they are and deliver nothing.
pub proof fn law_unmatched_message_ignored(ids: Set<u128>, msg: Message)
    requires
        !(msg matches Message::Response { id, .. } && ids.contains(id)),
    ensures
        completion(ids, msg) == (ids, None::<(u128, ResultView)>),
{
}

} // verus!
