//! How the tunnel client answers the MCP requests the server forwards:
//! which local server takes a request, whether its client must be
//! started, which call the request asks for, and the answer each outcome
//! gives.  Starting servers and calling them is outside work.

use vstd::prelude::*;
use vstd::string::StringExecFns;
use crate::agent::mcp_proxy::ClientPlan;
use crate::assoc::{as_map, find, from_pairs, keys_unique, last_wins, lemma_entry, upsert};
use crate::client::config::McpServerConfig;
use crate::error::TunnelError;
use crate::json::{JsonValue, JsonView};
use crate::jsonrpc::{or_null, result_envelope, result_envelope_view};
use crate::protocol::{McpRequestMessage, McpResponseMessage};

verus! {

/// Where a forwarded request goes.
#[derive(Debug)]
pub enum ForwardPlan {
    /// To the stdio server of this name.
    Stdio(String),
    /// Nowhere: answer it at once with this.
    Reply(McpResponseMessage),
}

/// The call a request asks a stdio server for.
#[derive(Debug)]
pub enum StdioCall {
    ToolsList,
    /// `tools/call` with these parameters.
    ToolsCall(JsonValue),
    ResourcesList,
    PromptsList,
}

/// How a call to a stdio server went wrong.
#[derive(Debug)]
pub enum StdioFailure {
    /// The server's client could not be had.
    Client(String),
    /// The parameters are no valid tool call.
    InvalidParams(String),
    /// The server answered with an error.
    Failed(String),
}

/// An error answer to request `id`.
pub open spec fn refused(m: McpResponseMessage, id: u128, code: int, message: Seq<char>) -> bool {
    &&& m.correlation_id == id
    &&& m.payload is None
    &&& m.error matches Some(e) && e.code == code && e.message@ == message
}

/// The local MCP servers of the tunnel client.
///
/// Its tables are keyed by server or tool name.  vstd's specification of
/// `std::collections::HashMap` says nothing that can be used of a map
/// keyed by `String` (its key model covers integer keys), so each table is
/// an `assoc` vector of entries with distinct names (`keys_unique` in
/// `wf`), seen as a map; what a `HashMap` gave, one entry per name, is that
/// invariant.
pub struct McpProxyManager {
    configs: Vec<(String, McpServerConfig)>,
    running: Vec<(String, ())>,
}

impl McpProxyManager {
    pub closed spec fn wf(&self) -> bool {
        &&& keys_unique(self.configs@)
        &&& keys_unique(self.running@)
    }

    /// The configured servers, in order.
    pub closed spec fn config_entries(&self) -> Seq<(String, McpServerConfig)> {
        self.configs@
    }

    /// The configured servers by name.
    pub open spec fn config_map(&self) -> Map<Seq<char>, McpServerConfig> {
        as_map(self.config_entries())
    }

    /// The servers whose client runs.
    pub closed spec fn running_names(&self) -> Set<Seq<char>> {
        as_map(self.running@).dom()
    }

    /// A manager of the given servers, none started; of two entries of a
    /// name the later one counts.
    pub fn new(configs: Vec<(String, McpServerConfig)>) -> (m: Self)
        ensures
            m.wf(),
            m.config_map() == last_wins(configs@),
            m.running_names() == Set::<Seq<char>>::empty(),
    {
        let configs = from_pairs(configs);
        let m = McpProxyManager { configs, running: Vec::new() };
        proof {
            assert(as_map(m.running@).dom() =~= Set::<Seq<char>>::empty());
        }
        m
    }

    /// The server a request names, or else the first configured one.
    pub open spec fn target_of(&self, req: McpRequestMessage) -> Option<Seq<char>> {
        match req.target_server {
            Some(t) => Some(t@),
            None => if self.config_entries().len() > 0 {
                Some(self.config_entries()[0].0@)
            } else {
                None
            },
        }
    }

    /// Where a forwarded request goes.  Without a target it is refused
    /// with -32600 "No MCP server configured"; a target that is not
    /// configured with -32600 "MCP server '<name>' not found"; a stdio
    /// server takes it; an HTTP server is not reached yet, and a server
    /// with neither a command nor an address is misconfigured (-32600
    /// both).
    pub fn plan_forward(&self, req: &McpRequestMessage) -> (p: ForwardPlan)
        requires
            self.wf(),
        ensures
            match self.target_of(*req) {
                None => p matches ForwardPlan::Reply(m)
                    && refused(m, req.correlation_id, -32600, "No MCP server configured"@),
                Some(t) => if !self.config_map().contains_key(t) {
                    p matches ForwardPlan::Reply(m)
                        && refused(m, req.correlation_id, -32600, "MCP server '"@ + t + "' not found"@)
                } else if self.config_map()[t].command is Some {
                    p matches ForwardPlan::Stdio(n) && n@ == t
                } else if self.config_map()[t].url is Some {
                    p matches ForwardPlan::Reply(m)
                        && refused(m, req.correlation_id, -32600, "HTTP transport not yet implemented"@)
                } else {
                    p matches ForwardPlan::Reply(m)
                        && refused(m, req.correlation_id, -32600, "Invalid MCP server config: need command or url"@)
                },
            },
    {
        let target: &str = match &req.target_server {
            Some(t) => t.as_str(),
            None => {
                if self.configs.len() == 0 {
                    return ForwardPlan::Reply(McpResponseMessage::error(
                        req.correlation_id,
                        TunnelError::new(-32600, "No MCP server configured"),
                    ));
                }
                self.configs[0].0.as_str()
            },
        };
        match find(&self.configs, target) {
            None => {
                let mut msg = "MCP server '".to_string();
                msg.append(target);
                msg.append("' not found");
                proof {
                    reveal_strlit("MCP server '");
                    reveal_strlit("' not found");
                }
                ForwardPlan::Reply(McpResponseMessage::error(req.correlation_id, TunnelError { code: -32600, message: msg }))
            },
            Some(j) => {
                proof { lemma_entry(self.configs@, j as int); }
                let config = &self.configs[j].1;
                if config.is_stdio() {
                    ForwardPlan::Stdio(target.to_string())
                } else if config.is_http() {
                    ForwardPlan::Reply(McpResponseMessage::error(
                        req.correlation_id,
                        TunnelError::new(-32600, "HTTP transport not yet implemented"),
                    ))
                } else {
                    ForwardPlan::Reply(McpResponseMessage::error(
                        req.correlation_id,
                        TunnelError::new(-32600, "Invalid MCP server config: need command or url"),
                    ))
                }
            },
        }
    }

    /// How to reach the client of the configured server `name`.
    pub fn client_plan(&self, name: &str) -> (p: ClientPlan)
        requires
            self.wf(),
        ensures
            self.running_names().contains(name@) ==> p is Reuse,
            !self.running_names().contains(name@) && self.config_map().contains_key(name@)
                && self.config_map()[name@].command is Some ==> p is Spawn,
            !self.running_names().contains(name@) && !(self.config_map().contains_key(name@)
                && self.config_map()[name@].command is Some)
                ==> (p matches ClientPlan::Fail(m) && m@ == "No command specified"@),
    {
        match find(&self.running, name) {
            Some(j) => {
                proof { lemma_entry(self.running@, j as int); }
                ClientPlan::Reuse
            },
            None => {
                proof {
                    assert(!as_map(self.running@).dom().contains(name@));
                }
                let has_command = match find(&self.configs, name) {
                    Some(j) => {
                        proof { lemma_entry(self.configs@, j as int); }
                        self.configs[j].1.is_stdio()
                    },
                    None => false,
                };
                if has_command {
                    ClientPlan::Spawn
                } else {
                    ClientPlan::Fail("No command specified".to_string())
                }
            },
        }
    }

    /// Keeps a started client of `name`.
    pub fn record_client(&mut self, name: &str)
        requires
            old(self).wf(),
        ensures
            final(self).wf(),
            final(self).config_entries() == old(self).config_entries(),
            final(self).running_names() == old(self).running_names().insert(name@),
    {
        upsert(&mut self.running, name, ());
        proof {
            assert(final(self).running_names() =~= old(self).running_names().insert(name@));
        }
    }
}

/// The call a request asks for, or the error that answers it: a
/// `tools/call` needs parameters (-32602), a method other than the four
/// served is not supported (-32601), and a request needs a method (-32600).
pub open spec fn stdio_call_spec(payload: JsonView) -> Result<int, (i32, Seq<char>)> {
    match payload.member("method"@) {
        Some(m) => match m.text() {
            Some(t) => if t == "tools/list"@ {
                Ok(0)
            } else if t == "tools/call"@ {
                if payload.member("params"@) is Some { Ok(1) } else { Err((-32602i32, "Missing params for tools/call"@)) }
            } else if t == "resources/list"@ {
                Ok(2)
            } else if t == "prompts/list"@ {
                Ok(3)
            } else {
                Err((-32601i32, "Method not supported: "@ + t))
            },
            None => Err((-32600i32, "Missing method in request"@)),
        },
        None => Err((-32600i32, "Missing method in request"@)),
    }
}

/// The number `stdio_call_spec` gives a call.
pub open spec fn call_number(c: StdioCall) -> int {
    match c {
        StdioCall::ToolsList => 0,
        StdioCall::ToolsCall(_) => 1,
        StdioCall::ResourcesList => 2,
        StdioCall::PromptsList => 3,
    }
}

/// The call a request payload asks a stdio server for.
pub fn stdio_call(payload: &JsonValue) -> (r: Result<StdioCall, TunnelError>)
    ensures
        match stdio_call_spec(payload@) {
            Ok(n) => r matches Ok(c) && call_number(c) == n
                && (c matches StdioCall::ToolsCall(p) ==> payload@.member("params"@) == Some(p@)),
            Err((code, msg)) => r matches Err(e) && e.code == code && e.message@ == msg,
        },
{
    proof {
        reveal_strlit("tools/list");
        reveal_strlit("tools/call");
        reveal_strlit("resources/list");
        reveal_strlit("prompts/list");
        reveal_strlit("Method not supported: ");
    }
    let method: Option<&str> = match payload.get("method") {
        Some(v) => v.as_str(),
        None => None,
    };
    match method {
        None => Err(TunnelError::new(-32600, "Missing method in request")),
        Some(t) => {
            let s = t.to_string();
            if s == "tools/list".to_string() {
                Ok(StdioCall::ToolsList)
            } else if s == "tools/call".to_string() {
                match payload.get("params") {
                    Some(p) => Ok(StdioCall::ToolsCall(p.duplicate())),
                    None => Err(TunnelError::new(-32602, "Missing params for tools/call")),
                }
            } else if s == "resources/list".to_string() {
                Ok(StdioCall::ResourcesList)
            } else if s == "prompts/list".to_string() {
                Ok(StdioCall::PromptsList)
            } else {
                let mut m = "Method not supported: ".to_string();
                m.append(t);
                Err(TunnelError { code: -32601, message: m })
            }
        },
    }
}

/// The prefix of the error of a failed call.
pub open spec fn failure_prefix(n: int) -> Seq<char> {
    if n == 0 {
        "tools/list failed: "@
    } else if n == 1 {
        "tools/call failed: "@
    } else if n == 2 {
        "resources/list failed: "@
    } else {
        "prompts/list failed: "@
    }
}

fn failure_prefix_text(call: &StdioCall) -> (s: &'static str)
    ensures
        s@ == failure_prefix(call_number(*call)),
{
    match call {
        StdioCall::ToolsList => "tools/list failed: ",
        StdioCall::ToolsCall(_) => "tools/call failed: ",
        StdioCall::ResourcesList => "resources/list failed: ",
        StdioCall::PromptsList => "prompts/list failed: ",
    }
}

/// The answer to a request served by a stdio server: its result in a
/// JSON-RPC result carrying the request's id, or the error of what went
/// wrong (-32603 for a client or call failure, -32602 for bad parameters).
pub fn stdio_response(correlation_id: u128, id: Option<JsonValue>, call: &StdioCall, outcome: Result<JsonValue, StdioFailure>)
    -> (m: McpResponseMessage)
    ensures
        m.correlation_id == correlation_id,
        match outcome {
            Ok(v) => m.error is None && (m.payload matches Some(p) && p@ == result_envelope_view(or_null(id), v@)),
            Err(StdioFailure::Client(e)) => refused(m, correlation_id, -32603, e@),
            Err(StdioFailure::InvalidParams(e)) => refused(m, correlation_id, -32602, "Invalid params: "@ + e@),
            Err(StdioFailure::Failed(e)) => refused(m, correlation_id, -32603, failure_prefix(call_number(*call)) + e@),
        },
{
    proof {
        reveal_strlit("Invalid params: ");
    }
    match outcome {
        Ok(v) => McpResponseMessage::success(correlation_id, result_envelope(id, v)),
        Err(StdioFailure::Client(e)) => McpResponseMessage::error(correlation_id, TunnelError { code: -32603, message: e }),
        Err(StdioFailure::InvalidParams(e)) => {
            let mut m = "Invalid params: ".to_string();
            m.append(e.as_str());
            McpResponseMessage::error(correlation_id, TunnelError { code: -32602, message: m })
        },
        Err(StdioFailure::Failed(e)) => {
            let mut m = failure_prefix_text(call).to_string();
            m.append(e.as_str());
            McpResponseMessage::error(correlation_id, TunnelError { code: -32603, message: m })
        },
    }
}

} // verus!
