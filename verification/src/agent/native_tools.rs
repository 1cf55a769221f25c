//! The tools the agent offers itself, beside those of its MCP servers:
//! the iMessage tools, where the Messages database exists (macOS).

use vstd::prelude::*;
use vstd::string::StringExecFns;
use crate::agent::imessage::{ImessageCall, ToolDescription, get_tools as imessage_tools_list, imessage_tools,
    is_imessage_tool, is_imessage_tool_name, opt_view, read_as, read_tool_call};
use crate::json::{JsonValue, JsonView};

verus! {

/// The agent's native tools.
pub struct NativeTools {
    pub imessage_db_path: Option<String>,
}

impl NativeTools {
    /// The native tools of a machine whose Messages database lies at
    /// `imessage_db_path`; `None` where there is none (off macOS).
    pub fn new(imessage_db_path: Option<String>) -> (t: Self)
        ensures
            t.imessage_db_path == imessage_db_path,
    {
        NativeTools { imessage_db_path }
    }

    /// The tools offered: the iMessage tools where the database exists,
    /// none otherwise.
    pub fn get_tools(&self) -> (tools: Vec<ToolDescription>)
        ensures
            self.imessage_db_path is None ==> tools@.len() == 0,
            self.imessage_db_path is Some ==> tools@.len() == imessage_tools().len()
                && forall|i: int| 0 <= i < tools@.len() ==> (#[trigger] tools@[i]).name@ == imessage_tools()[i].0,
    {
        if self.imessage_db_path.is_some() {
            imessage_tools_list()
        } else {
            Vec::new()
        }
    }

    /// The call a tool request makes, or the message of the invalid-params
    /// error that answers it: a tool the agent does not offer is
    /// "Unknown native tool: <name>"; an iMessage tool's own arguments are
    /// read as that tool reads them.
    pub fn route_tool_call(&self, name: &str, args: Option<&JsonValue>) -> (r: Result<ImessageCall, String>)
        ensures
            !(self.imessage_db_path is Some && is_imessage_tool(name@))
                ==> (r matches Err(e) && e@ == "Unknown native tool: "@ + name@),
            self.imessage_db_path is Some && is_imessage_tool(name@) ==> read_as(name@, opt_view(args), r),
    {
        if self.imessage_db_path.is_some() && is_imessage_tool_name(name) {
            read_tool_call(name, args)
        } else {
            let mut m = "Unknown native tool: ".to_string();
            m.append(name);
            proof {
                reveal_strlit("Unknown native tool: ");
            }
            Err(m)
        }
    }
}

} // verus!
