//! The executor of configured CLI tools, as the gateway's MCP handler uses it.

use vstd::prelude::*;
use crate::cli_runner::{describes, list_descriptors, lookup_tool, unknown_tool_message, ToolDescriptor};
use crate::config::model::CliToolDef;
use crate::strmap::StrMap;

verus! {

/// Lists and looks up the configured CLI tools.
pub struct CliToolExecutor {
    pub tools: StrMap<CliToolDef>,
}

impl CliToolExecutor {
    pub fn new(tools: StrMap<CliToolDef>) -> (e: Self)
        ensures
            e.tools == tools,
    {
        CliToolExecutor { tools }
    }

    pub fn has_tool(&self, name: &str) -> (b: bool)
        ensures
            b == self.tools@.contains_key(name@),
    {
        self.tools.contains_key(name)
    }

    /// A descriptor for each tool, in name order.
    pub fn list_tools(&self) -> (v: Vec<ToolDescriptor>)
        ensures
            v@.len() == self.tools.pairs().len(),
            forall|i: int| 0 <= i < v@.len() ==> describes(#[trigger] v@[i], self.tools.pairs()[i].0,
                self.tools.pairs()[i].1.command@, self.tools.pairs()[i].1.description),
    {
        list_descriptors(&self.tools)
    }

    /// The definition of the tool that a call of `name` runs, or the error that
    /// the call gets.
    pub fn tool_for_call(&self, name: &str) -> (r: Result<&CliToolDef, String>)
        ensures
            match r {
                Ok(def) => self.tools@.contains_key(name@) && *def == self.tools@[name@],
                Err(m) => !self.tools@.contains_key(name@) && m@ == unknown_tool_message(name@),
            },
    {
        lookup_tool(&self.tools, name)
    }
}

} // verus!
