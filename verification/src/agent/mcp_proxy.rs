//! The agent's bookkeeping of its local MCP servers: which are configured,
//! which have a live client, which tool each server offers, and how an
//! MCP request from the gateway is answered or routed.
//!
//! Starting the servers and talking to them is outside work; the manager
//! says what to do and turns the outcomes into answers.

use vstd::prelude::*;
use vstd::string::StringExecFns;
use crate::agent::config::McpServerConfig;
use crate::assoc::{as_map, find, from_pairs, keys_unique, last_wins, lemma_entry, take, upsert};
use crate::error::TunnelError;
use crate::json::{JsonValue, JsonView, fields_view, items_view};
use crate::jsonrpc::{or_null, result_envelope, result_envelope_view};
use crate::protocol::McpResponseMessage;
use crate::commands::McpServerStatus;
use crate::server::registry::copy_opt;

verus! {

/// The MCP methods the agent treats apart.
#[derive(Debug, Clone, Copy, PartialEq, Eq, Structural)]
pub enum McpMethod {
    ToolsList,
    ToolsCall,
    ResourcesList,
    PromptsList,
    Other,
}

/// The method a request payload names.
pub open spec fn method_of(payload: JsonView) -> McpMethod {
    match payload.member("method"@) {
        Some(m) => match m.text() {
            Some(t) => if t == "tools/list"@ {
                McpMethod::ToolsList
            } else if t == "tools/call"@ {
                McpMethod::ToolsCall
            } else if t == "resources/list"@ {
                McpMethod::ResourcesList
            } else if t == "prompts/list"@ {
                McpMethod::PromptsList
            } else {
                McpMethod::Other
            },
            None => McpMethod::Other,
        },
        None => McpMethod::Other,
    }
}

/// Which way a request goes, from its `method` member.
pub fn classify_method(payload: &JsonValue) -> (m: McpMethod)
    ensures
        m == method_of(payload@),
{
    proof {
        reveal_strlit("tools/list");
        reveal_strlit("tools/call");
        reveal_strlit("resources/list");
        reveal_strlit("prompts/list");
    }
    match payload.get("method") {
        Some(v) => match v.as_str() {
            Some(t) => {
                let s = t.to_string();
                if s == "tools/list".to_string() {
                    McpMethod::ToolsList
                } else if s == "tools/call".to_string() {
                    McpMethod::ToolsCall
                } else if s == "resources/list".to_string() {
                    McpMethod::ResourcesList
                } else if s == "prompts/list".to_string() {
                    McpMethod::PromptsList
                } else {
                    McpMethod::Other
                }
            },
            None => McpMethod::Other,
        },
        None => McpMethod::Other,
    }
}

/// The tool a `tools/call` payload names: `params.name`, when a string.
pub open spec fn tool_name_of(payload: JsonView) -> Option<Seq<char>> {
    match payload.member("params"@) {
        Some(p) => match p.member("name"@) {
            Some(n) => n.text(),
            None => None,
        },
        None => None,
    }
}

/// What to do to reach a server's client.
#[derive(Debug)]
pub enum ClientPlan {
    /// A client is running: use it.
    Reuse,
    /// Start the configured command and keep its client.
    Spawn,
    /// The server cannot be started.
    Fail(String),
}

/// How a tool call that was routed went wrong.
#[derive(Debug)]
pub enum ToolCallFailure {
    /// The server's client could not be had.
    Client(String),
    /// The parameters are no valid call.
    InvalidParams(String),
    /// The server answered the call with an error.
    Call(String),
}

/// Some server of `cfg` named `name` runs over stdio.
pub open spec fn is_stdio_name(cfg: Seq<(String, McpServerConfig)>, name: Seq<char>) -> bool {
    exists|i: int| 0 <= i < cfg.len() && cfg[i].1.command is Some && #[trigger] cfg[i].0@ == name
}

/// The local MCP servers of an agent.
///
/// Its tables are keyed by server or tool name.  vstd's specification of
/// `std::collections::HashMap` says nothing that can be used of a map
/// keyed by `String` (its key model covers integer keys), so each table is
/// an `assoc` vector of entries with distinct names (`keys_unique` in
/// `wf`), seen as a map; what a `HashMap` gave, one entry per name, is that
/// invariant.
pub struct McpProxyManager {
    configs: Vec<(String, McpServerConfig)>,
    running: Vec<(String, ())>,
    tool_to_server: Vec<(String, String)>,
    errors: Vec<(String, String)>,
}

/// Texts by name, their values taken by view.
pub open spec fn text_map(e: Seq<(String, String)>) -> Map<Seq<char>, Seq<char>> {
    as_map(e).map_values(|s: String| s@)
}

impl McpProxyManager {
    pub closed spec fn wf(&self) -> bool {
        &&& keys_unique(self.configs@)
        &&& keys_unique(self.running@)
        &&& keys_unique(self.tool_to_server@)
        &&& keys_unique(self.errors@)
    }

    /// The configured servers, in the order given.
    pub closed spec fn config_entries(&self) -> Seq<(String, McpServerConfig)> {
        self.configs@
    }

    /// The configured servers by name.
    pub open spec fn config_map(&self) -> Map<Seq<char>, McpServerConfig> {
        as_map(self.config_entries())
    }

    /// The servers whose client runs.
    pub closed spec fn running_names(&self) -> Set<Seq<char>> {
        as_map(self.running@).dom()
    }

    /// The server that offers each tool, as last listed.
    pub closed spec fn tool_map(&self) -> Map<Seq<char>, Seq<char>> {
        text_map(self.tool_to_server@)
    }

    /// The last error of each server.
    pub closed spec fn error_map(&self) -> Map<Seq<char>, Seq<char>> {
        text_map(self.errors@)
    }

    /// A manager of the given servers, none of them started yet; of two
    /// entries of a name the later one counts.
    pub fn new(configs: Vec<(String, McpServerConfig)>) -> (m: Self)
        ensures
            m.wf(),
            m.config_map() == last_wins(configs@),
            m.running_names() == Set::<Seq<char>>::empty(),
            m.tool_map() == Map::<Seq<char>, Seq<char>>::empty(),
            m.error_map() == Map::<Seq<char>, Seq<char>>::empty(),
    {
        let configs = from_pairs(configs);
        let m = McpProxyManager { configs, running: Vec::new(), tool_to_server: Vec::new(), errors: Vec::new() };
        proof {
            assert(as_map(m.running@).dom() =~= Set::<Seq<char>>::empty());
            assert(text_map(m.tool_to_server@) =~= Map::<Seq<char>, Seq<char>>::empty());
            assert(text_map(m.errors@) =~= Map::<Seq<char>, Seq<char>>::empty());
        }
        m
    }

    /// The status of each configured server, in configuration order:
    /// running when its client is alive, with its last error if any.
    pub fn get_status(&self) -> (r: Vec<(String, McpServerStatus)>)
        requires
            self.wf(),
        ensures
            r@.len() == self.config_entries().len(),
            forall|i: int| 0 <= i < r@.len() ==> {
                let name = self.config_entries()[i].0@;
                &&& (#[trigger] r@[i]).0@ == name
                &&& r@[i].1.running == self.running_names().contains(name)
                &&& (r@[i].1.error is Some <==> self.error_map().contains_key(name))
                &&& (r@[i].1.error matches Some(e) ==> e@ == self.error_map()[name])
                &&& r@[i].1.pid is None
                &&& r@[i].1.tools_count == 0
                &&& r@[i].1.logs@.len() == 0
            },
    {
        let mut out: Vec<(String, McpServerStatus)> = Vec::new();
        let mut i: usize = 0;
        while i < self.configs.len()
            invariant
                self.wf(),
                i <= self.configs@.len(),
                out@.len() == i,
                forall|k: int| 0 <= k < i ==> {
                    let name = self.configs@[k].0@;
                    &&& (#[trigger] out@[k]).0@ == name
                    &&& out@[k].1.running == self.running_names().contains(name)
                    &&& (out@[k].1.error is Some <==> self.error_map().contains_key(name))
                    &&& (out@[k].1.error matches Some(e) ==> e@ == self.error_map()[name])
                    &&& out@[k].1.pid is None
                    &&& out@[k].1.tools_count == 0
                    &&& out@[k].1.logs@.len() == 0
                },
            decreases self.configs@.len() - i,
        {
            let name = self.configs[i].0.as_str();
            let running = match find(&self.running, name) {
                Some(j) => {
                    proof { lemma_entry(self.running@, j as int); }
                    true
                },
                None => false,
            };
            let error = match find(&self.errors, name) {
                Some(j) => {
                    proof { lemma_entry(self.errors@, j as int); }
                    Some(self.errors[j].1.clone())
                },
                None => None,
            };
            out.push((name.to_string(), McpServerStatus { running, error, pid: None, tools_count: 0, logs: Vec::new() }));
            i = i + 1;
        }
        out
    }

    /// Forgets a server's client and its error, so that the next request
    /// starts it anew.
    pub fn restart_server(&mut self, name: &str)
        requires
            old(self).wf(),
        ensures
            final(self).wf(),
            final(self).config_entries() == old(self).config_entries(),
            final(self).tool_map() == old(self).tool_map(),
            final(self).running_names() == old(self).running_names().remove(name@),
            final(self).error_map() == old(self).error_map().remove(name@),
    {
        let _ = take(&mut self.running, name);
        let _ = take(&mut self.errors, name);
        proof {
            assert(final(self).running_names() =~= old(self).running_names().remove(name@));
            assert(text_map(self.errors@) =~= text_map(old(self).errors@).remove(name@));
        }
    }

    /// The configuration of the server `name`, if it is configured.
    pub fn config_of(&self, name: &str) -> (r: Option<&McpServerConfig>)
        requires
            self.wf(),
        ensures
            match r {
                Some(c) => self.config_map().contains_key(name@) && *c == self.config_map()[name@],
                None => !self.config_map().contains_key(name@),
            },
    {
        match find(&self.configs, name) {
            Some(j) => {
                proof { lemma_entry(self.configs@, j as int); }
                Some(&self.configs[j].1)
            },
            None => None,
        }
    }

    /// How to reach the client of the server `name` configured as `config`.
    pub fn client_plan(&self, name: &str, config: &McpServerConfig) -> (p: ClientPlan)
        requires
            self.wf(),
        ensures
            self.running_names().contains(name@) ==> p is Reuse,
            !self.running_names().contains(name@) && config.command is Some ==> p is Spawn,
            !self.running_names().contains(name@) && config.command is None
                ==> (p matches ClientPlan::Fail(m) && m@ == "No command specified"@),
    {
        match find(&self.running, name) {
            Some(j) => {
                proof { lemma_entry(self.running@, j as int); }
                ClientPlan::Reuse
            },
            None => {
                proof {
                    assert(!as_map(self.running@).dom().contains(name@));
                }
                if config.command.is_some() {
                    ClientPlan::Spawn
                } else {
                    ClientPlan::Fail("No command specified".to_string())
                }
            },
        }
    }

    /// Keeps a started client of `name`.
    pub fn record_client(&mut self, name: &str)
        requires
            old(self).wf(),
        ensures
            final(self).wf(),
            final(self).config_entries() == old(self).config_entries(),
            final(self).tool_map() == old(self).tool_map(),
            final(self).error_map() == old(self).error_map(),
            final(self).running_names() == old(self).running_names().insert(name@),
    {
        upsert(&mut self.running, name, ());
        proof {
            assert(final(self).running_names() =~= old(self).running_names().insert(name@));
        }
    }

    /// Notes that `server` offers each of `tools`; a tool listed by
    /// several servers goes to the one listed last.
    pub fn record_tools(&mut self, server: &str, tools: &Vec<String>)
        requires
            old(self).wf(),
        ensures
            final(self).wf(),
            final(self).config_entries() == old(self).config_entries(),
            final(self).running_names() == old(self).running_names(),
            final(self).error_map() == old(self).error_map(),
            forall|t: Seq<char>| #[trigger] final(self).tool_map().contains_key(t) <==>
                (old(self).tool_map().contains_key(t) || exists|i: int| 0 <= i < tools@.len() && tools@[i]@ == t),
            forall|t: Seq<char>| final(self).tool_map().contains_key(t) ==>
                #[trigger] final(self).tool_map()[t] == if exists|i: int| 0 <= i < tools@.len() && tools@[i]@ == t {
                    server@
                } else {
                    old(self).tool_map()[t]
                },
    {
        let mut i: usize = 0;
        while i < tools.len()
            invariant
                self.wf(),
                i <= tools@.len(),
                self.configs@ == old(self).configs@,
                self.running@ == old(self).running@,
                self.errors@ == old(self).errors@,
                forall|t: Seq<char>| #[trigger] text_map(self.tool_to_server@).contains_key(t) <==>
                    (old(self).tool_map().contains_key(t) || exists|j: int| 0 <= j < i && tools@[j]@ == t),
                forall|t: Seq<char>| text_map(self.tool_to_server@).contains_key(t) ==>
                    #[trigger] text_map(self.tool_to_server@)[t] == if exists|j: int| 0 <= j < i && tools@[j]@ == t {
                        server@
                    } else {
                        old(self).tool_map()[t]
                    },
            decreases tools@.len() - i,
        {
            let ghost before = text_map(self.tool_to_server@);
            upsert(&mut self.tool_to_server, tools[i].as_str(), server.to_string());
            proof {
                let tn = tools@[i as int]@;
                assert(text_map(self.tool_to_server@) =~= before.insert(tn, server@));
                assert forall|t: Seq<char>| #[trigger] text_map(self.tool_to_server@).contains_key(t) <==>
                    (old(self).tool_map().contains_key(t) || exists|j: int| 0 <= j < i + 1 && tools@[j]@ == t) by {
                    if t == tn {
                        assert(0 <= i < i + 1 && tools@[i as int]@ == t);
                    } else if exists|j: int| 0 <= j < i + 1 && tools@[j]@ == t {
                        let j = choose|j: int| 0 <= j < i + 1 && tools@[j]@ == t;
                        assert(j < i);
                    }
                }
                assert forall|t: Seq<char>| text_map(self.tool_to_server@).contains_key(t) implies
                    #[trigger] text_map(self.tool_to_server@)[t] == if exists|j: int| 0 <= j < i + 1 && tools@[j]@ == t {
                        server@
                    } else {
                        old(self).tool_map()[t]
                    } by {
                    if t == tn {
                        assert(0 <= i < i + 1 && tools@[i as int]@ == t);
                    } else if exists|j: int| 0 <= j < i + 1 && tools@[j]@ == t {
                        let j = choose|j: int| 0 <= j < i + 1 && tools@[j]@ == t;
                        assert(j < i);
                    } else {
                        assert(!exists|j: int| 0 <= j < i && tools@[j]@ == t);
                    }
                }
            }
            i = i + 1;
        }
    }

    /// The configured servers that run over stdio, in configuration
    /// order: the only ones the agent lists and calls.
    pub fn stdio_servers(&self) -> (r: Vec<String>)
        ensures
            r@.len() <= self.config_entries().len(),
            forall|k: int| 0 <= k < r@.len() ==> is_stdio_name(self.config_entries(), #[trigger] r@[k]@),
            forall|i: int| 0 <= i < self.config_entries().len() && (#[trigger] self.config_entries()[i]).1.command is Some
                ==> exists|k: int| 0 <= k < r@.len() && r@[k]@ == self.config_entries()[i].0@,
    {
        let mut out: Vec<String> = Vec::new();
        let mut i: usize = 0;
        while i < self.configs.len()
            invariant
                i <= self.configs@.len(),
                out@.len() <= i,
                forall|k: int| 0 <= k < out@.len() ==> is_stdio_name(self.configs@, #[trigger] out@[k]@),
                forall|j: int| 0 <= j < i && (#[trigger] self.configs@[j]).1.command is Some
                    ==> exists|k: int| 0 <= k < out@.len() && out@[k]@ == self.configs@[j].0@,
            decreases self.configs@.len() - i,
        {
            if self.configs[i].1.is_stdio() {
                let ghost before = out@;
                out.push(self.configs[i].0.clone());
                proof {
                    assert forall|k: int| 0 <= k < out@.len() implies is_stdio_name(self.configs@, #[trigger] out@[k]@) by {
                        if k < before.len() {
                            assert(out@[k] == before[k]);
                        } else {
                            assert(out@[k]@ == self.configs@[i as int].0@);
                        }
                    }
                    assert forall|j: int| 0 <= j < i + 1 && (#[trigger] self.configs@[j]).1.command is Some
                        implies exists|k: int| 0 <= k < out@.len() && out@[k]@ == self.configs@[j].0@ by {
                        if j == i {
                            assert(out@[before.len() as int]@ == self.configs@[j].0@);
                        } else {
                            let k = choose|k: int| 0 <= k < before.len() && before[k]@ == self.configs@[j].0@;
                            assert(out@[k] == before[k]);
                        }
                    }
                }
            }
            i = i + 1;
        }
        out
    }

    /// The server a `tools/call` request goes to, or the error that
    /// answers it: no tool name (-32602), a tool no server listed
    /// (-32601), or a server no longer configured (-32603).
    pub fn route_tool_call(&self, payload: &JsonValue) -> (r: Result<String, TunnelError>)
        requires
            self.wf(),
        ensures
            match tool_name_of(payload@) {
                None => r matches Err(e) && e.code == -32602 && e.message@ == "Missing tool name"@,
                Some(t) => if !self.tool_map().contains_key(t) {
                    r matches Err(e) && e.code == -32601 && e.message@ == "Unknown tool: "@ + t
                } else if !self.config_map().contains_key(self.tool_map()[t]) {
                    r matches Err(e) && e.code == -32603
                        && e.message@ == "Server '"@ + self.tool_map()[t] + "' not found"@
                } else {
                    r matches Ok(s) && s@ == self.tool_map()[t]
                },
            },
    {
        let name: Option<&str> = match payload.get("params") {
            Some(p) => match p.get("name") {
                Some(n) => n.as_str(),
                None => None,
            },
            None => None,
        };
        let tool = match name {
            Some(t) => t,
            None => {
                return Err(TunnelError::new(-32602, "Missing tool name"));
            },
        };
        let server = match find(&self.tool_to_server, tool) {
            Some(j) => {
                proof { lemma_entry(self.tool_to_server@, j as int); }
                self.tool_to_server[j].1.clone()
            },
            None => {
                let mut m = "Unknown tool: ".to_string();
                m.append(tool);
                proof { reveal_strlit("Unknown tool: "); }
                return Err(TunnelError { code: -32601, message: m });
            },
        };
        match find(&self.configs, server.as_str()) {
            Some(j) => {
                proof { lemma_entry(self.configs@, j as int); }
                Ok(server)
            },
            None => {
                let mut m = "Server '".to_string();
                m.append(server.as_str());
                m.append("' not found");
                proof {
                    reveal_strlit("Server '");
                    reveal_strlit("' not found");
                }
                Err(TunnelError { code: -32603, message: m })
            },
        }
    }

    /// The answer to a request of a method the agent does not treat
    /// apart.  It goes to the first configured server; no server answers
    /// -32600, and a stdio server -32601, as the agent forwards no such
    /// method; any other server -32600.
    pub fn forward_to_first(&self, correlation_id: u128) -> (m: McpResponseMessage)
        ensures
            m.correlation_id == correlation_id,
            m.payload is None,
            m.error matches Some(e) && (
                if self.config_entries().len() == 0 {
                    e.code == -32600 && e.message@ == "No MCP server configured"@
                } else if self.config_entries()[0].1.command is Some {
                    e.code == -32601 && e.message@ == "Method not supported"@
                } else {
                    e.code == -32600 && e.message@ == "Only stdio servers supported"@
                }),
    {
        if self.configs.len() == 0 {
            McpResponseMessage::error(correlation_id, TunnelError::new(-32600, "No MCP server configured"))
        } else if self.configs[0].1.is_stdio() {
            McpResponseMessage::error(correlation_id, TunnelError::new(-32601, "Method not supported"))
        } else {
            McpResponseMessage::error(correlation_id, TunnelError::new(-32600, "Only stdio servers supported"))
        }
    }
}

/// `{"<key>": items}`.
pub open spec fn list_result_view(key: Seq<char>, items: Seq<JsonView>) -> JsonView {
    JsonView::Object(seq![(key, JsonView::Array(items))])
}

/// The answer to a listing request: the items gathered from all servers
/// under `key` (`tools`, `resources` or `prompts`), in a JSON-RPC result
/// carrying the request's id.
pub fn list_response(correlation_id: u128, id: Option<JsonValue>, key: &str, items: Vec<JsonValue>) -> (m: McpResponseMessage)
    ensures
        m.correlation_id == correlation_id,
        m.error is None,
        m.payload matches Some(p) && p@ == result_envelope_view(or_null(id), list_result_view(key@, items_view(items@))),
{
    let ghost iv = items_view(items@);
    let arr = JsonValue::Array(items);
    proof {
        JsonValue::lemma_array_view(items);
    }
    let mut fields: Vec<(String, JsonValue)> = Vec::new();
    fields.push((key.to_string(), arr));
    proof {
        JsonValue::lemma_object_view(fields);
        assert(fields_view(fields@) =~= list_result_view(key@, iv)->Object_0);
    }
    McpResponseMessage::success(correlation_id, result_envelope(id, JsonValue::Object(fields)))
}

/// The answer to a routed tool call: the server's result in a JSON-RPC
/// result, or the error of whatever went wrong.
pub fn tool_call_response(correlation_id: u128, id: Option<JsonValue>, outcome: Result<JsonValue, ToolCallFailure>) -> (m: McpResponseMessage)
    ensures
        m.correlation_id == correlation_id,
        match outcome {
            Ok(v) => {
                &&& m.error is None
                &&& m.payload matches Some(p) && p@ == result_envelope_view(or_null(id), v@)
            },
            Err(ToolCallFailure::Client(e)) => {
                &&& m.payload is None
                &&& m.error matches Some(x) && x.code == -32603 && x.message@ == e@
            },
            Err(ToolCallFailure::InvalidParams(e)) => {
                &&& m.payload is None
                &&& m.error matches Some(x) && x.code == -32602 && x.message@ == "Invalid params: "@ + e@
            },
            Err(ToolCallFailure::Call(e)) => {
                &&& m.payload is None
                &&& m.error matches Some(x) && x.code == -32603 && x.message@ == "tools/call failed: "@ + e@
            },
        },
{
    proof {
        reveal_strlit("Invalid params: ");
        reveal_strlit("tools/call failed: ");
    }
    match outcome {
        Ok(v) => McpResponseMessage::success(correlation_id, result_envelope(id, v)),
        Err(ToolCallFailure::Client(e)) => McpResponseMessage::error(correlation_id, TunnelError { code: -32603, message: e }),
        Err(ToolCallFailure::InvalidParams(e)) => {
            let mut m = "Invalid params: ".to_string();
            m.append(e.as_str());
            McpResponseMessage::error(correlation_id, TunnelError { code: -32602, message: m })
        },
        Err(ToolCallFailure::Call(e)) => {
            let mut m = "tools/call failed: ".to_string();
            m.append(e.as_str());
            McpResponseMessage::error(correlation_id, TunnelError { code: -32603, message: m })
        },
    }
}

} // verus!
