//! How the agent answers the server's commands, over the state it keeps:
//! the manager of its MCP servers, once a configuration was applied.

use vstd::prelude::*;
use crate::agent::config::McpServerConfig;
use crate::agent::mcp_proxy::McpProxyManager;
use crate::assoc::{as_map, keys_unique, lemma_last_wins_unique, take, upsert};
use crate::commands;
use crate::commands::{McpStatusResponse, RestartAgentResponse, RestartMcpServer, RestartMcpServerResponse,
    UpdateMcpConfig, UpdateMcpConfigResponse};
use crate::error::TunnelError;
use crate::protocol::McpResponseMessage;

verus! {

/// How the agent starts a server the server configured: its command,
/// arguments and environment.
pub open spec fn agent_config_of(c: commands::McpServerConfig) -> McpServerConfig {
    McpServerConfig { command: Some(c.command), args: c.args, env: c.env }
}

/// The enabled servers of a configuration, by name, as the agent starts
/// them; of two entries of a name the later one counts, as in the map the
/// configuration is read into.
pub open spec fn enabled_map(c: Seq<(String, commands::McpServerConfig)>) -> Map<Seq<char>, McpServerConfig>
    decreases c.len(),
{
    if c.len() == 0 {
        Map::empty()
    } else if c.last().1.enabled {
        enabled_map(c.drop_last()).insert(c.last().0@, agent_config_of(c.last().1))
    } else {
        enabled_map(c.drop_last()).remove(c.last().0@)
    }
}

/// The agent's configuration of the servers the server enabled.
pub fn enabled_configs(config: Vec<(String, commands::McpServerConfig)>) -> (r: Vec<(String, McpServerConfig)>)
    ensures
        keys_unique(r@),
        as_map(r@) == enabled_map(config@),
{
    let ghost orig = config@;
    let mut rest = config;
    let mut out: Vec<(String, McpServerConfig)> = Vec::new();
    let mut k: usize = 0;
    assert(orig.len() == rest.len());
    assert(orig.take(0) =~= Seq::<(String, commands::McpServerConfig)>::empty());
    assert(orig.skip(0) =~= orig);
    assert(as_map(out@) =~= Map::<Seq<char>, McpServerConfig>::empty());
    while rest.len() > 0
        invariant
            k <= orig.len() <= usize::MAX,
            rest@ == orig.skip(k as int),
            keys_unique(out@),
            as_map(out@) == enabled_map(orig.take(k as int)),
        decreases rest@.len(),
    {
        let (name, c) = rest.remove(0);
        proof {
            assert(orig.take(k + 1).drop_last() =~= orig.take(k as int));
            assert(orig.take(k + 1).last() == orig[k as int]);
            assert(rest@ =~= orig.skip(k + 1));
        }
        if c.enabled {
            upsert(&mut out, name.as_str(), McpServerConfig { command: Some(c.command), args: c.args, env: c.env });
        } else {
            let _ = take(&mut out, name.as_str());
        }
        k = k + 1;
    }
    assert(orig.take(k as int) =~= orig);
    out
}

/// The agent's state behind its command handler.
pub struct AgentHandler {
    mcp_manager: Option<McpProxyManager>,
}

impl AgentHandler {
    pub closed spec fn wf(&self) -> bool {
        self.mcp_manager matches Some(m) ==> m.wf()
    }

    /// The MCP server manager, once a configuration was applied.
    pub closed spec fn manager(&self) -> Option<McpProxyManager> {
        self.mcp_manager
    }

    /// A handler with no configuration yet.
    pub fn new() -> (h: Self)
        ensures
            h.wf(),
            h.manager() is None,
    {
        AgentHandler { mcp_manager: None }
    }

    /// Replaces the MCP servers by the enabled ones of `config`, none of
    /// them started yet.
    pub fn apply_config(&mut self, config: Vec<(String, commands::McpServerConfig)>)
        ensures
            final(self).wf(),
            final(self).manager() matches Some(m) && m.config_map() == enabled_map(config@)
                && m.running_names() == Set::<Seq<char>>::empty()
                && m.tool_map() == Map::<Seq<char>, Seq<char>>::empty()
                && m.error_map() == Map::<Seq<char>, Seq<char>>::empty(),
    {
        let configs = enabled_configs(config);
        proof {
            lemma_last_wins_unique(configs@);
        }
        self.mcp_manager = Some(McpProxyManager::new(configs));
    }

    /// The manager of the MCP servers, if any.
    pub fn get_mcp_manager(&self) -> (r: Option<&McpProxyManager>)
        ensures
            r matches Some(m) ==> self.manager() == Some(*m),
            r is None <==> self.manager() is None,
    {
        match &self.mcp_manager {
            Some(m) => Some(m),
            None => None,
        }
    }

    /// Keeps a started client of the MCP server `name`; nothing happens
    /// before a configuration was applied.
    pub fn record_client(&mut self, name: &str)
        requires
            old(self).wf(),
        ensures
            final(self).wf(),
            old(self).manager() is None ==> final(self).manager() is None,
            old(self).manager() matches Some(m0) ==> final(self).manager() matches Some(m1)
                && m1.config_entries() == m0.config_entries()
                && m1.running_names() == m0.running_names().insert(name@)
                && m1.tool_map() == m0.tool_map()
                && m1.error_map() == m0.error_map(),
    {
        match &mut self.mcp_manager {
            Some(m) => m.record_client(name),
            None => {},
        }
    }

    /// Notes that the MCP server `server` offers `tools`; nothing happens
    /// before a configuration was applied.
    pub fn record_tools(&mut self, server: &str, tools: &Vec<String>)
        requires
            old(self).wf(),
        ensures
            final(self).wf(),
            old(self).manager() is None ==> final(self).manager() is None,
            old(self).manager() matches Some(m0) ==> final(self).manager() matches Some(m1)
                && m1.config_entries() == m0.config_entries()
                && m1.running_names() == m0.running_names()
                && forall|t: Seq<char>| #[trigger] m1.tool_map().contains_key(t) <==>
                    (m0.tool_map().contains_key(t) || exists|i: int| 0 <= i < tools@.len() && tools@[i]@ == t),
    {
        match &mut self.mcp_manager {
            Some(m) => m.record_tools(server, tools),
            None => {},
        }
    }

    /// The status of each configured MCP server; none before a
    /// configuration was applied.
    pub fn get_mcp_status(&self) -> (r: McpStatusResponse)
        requires
            self.wf(),
        ensures
            self.manager() is None ==> r.servers@.len() == 0,
            self.manager() matches Some(m) ==> r.servers@.len() == m.config_entries().len()
                && forall|i: int| 0 <= i < r.servers@.len() ==>
                    (#[trigger] r.servers@[i]).0@ == m.config_entries()[i].0@
                    && r.servers@[i].1.running == m.running_names().contains(m.config_entries()[i].0@),
    {
        match &self.mcp_manager {
            Some(m) => McpStatusResponse { servers: m.get_status() },
            None => McpStatusResponse { servers: Vec::new() },
        }
    }

    /// Applies the configuration the command carries; it always succeeds.
    pub fn update_mcp_config(&mut self, cmd: UpdateMcpConfig) -> (r: UpdateMcpConfigResponse)
        ensures
            r.success,
            final(self).wf(),
            final(self).manager() matches Some(m) && m.config_map() == enabled_map(cmd.servers@),
    {
        self.apply_config(cmd.servers);
        UpdateMcpConfigResponse { success: true }
    }

    /// Restarts one MCP server: it fails only where no configuration was
    /// applied yet.
    pub fn restart_mcp_server(&mut self, cmd: RestartMcpServer) -> (r: RestartMcpServerResponse)
        requires
            old(self).wf(),
        ensures
            final(self).wf(),
            r.success == old(self).manager() is Some,
            old(self).manager() matches Some(m0) ==> final(self).manager() matches Some(m1)
                && m1.config_entries() == m0.config_entries()
                && m1.running_names() == m0.running_names().remove(cmd.name@)
                && m1.error_map() == m0.error_map().remove(cmd.name@)
                && m1.tool_map() == m0.tool_map(),
            old(self).manager() is None ==> final(self).manager() is None,
    {
        match &mut self.mcp_manager {
            Some(m) => {
                m.restart_server(cmd.name.as_str());
                RestartMcpServerResponse { success: true }
            },
            None => RestartMcpServerResponse { success: false },
        }
    }

    /// The agent restarts itself (its service manager starts it again);
    /// the command is always taken.
    pub fn restart_agent(&self) -> (r: RestartAgentResponse)
        ensures
            r.success,
    {
        RestartAgentResponse { success: true }
    }

    /// The answer to an MCP request that arrives before any configuration.
    pub fn not_initialized(correlation_id: u128) -> (m: McpResponseMessage)
        ensures
            m.correlation_id == correlation_id,
            m.payload is None,
            m.error matches Some(e) && e.code == -32603 && e.message@ == "MCP not initialized"@,
    {
        McpResponseMessage::error(correlation_id, TunnelError::new(-32603, "MCP not initialized"))
    }
}

} // verus!
