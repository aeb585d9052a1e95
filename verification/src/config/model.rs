//! Registered MCP servers (stdio or HTTP) with their tool allowlists and
//! denylists, and CLI tools described by a command and argument template.

use vstd::prelude::*;
use crate::strmap::StrMap;

verus! {

/// A tool backed by a local command.
#[derive(Debug, Clone, PartialEq, Eq)]
pub struct CliToolDef {
    pub command: String,
    pub args: Vec<String>,
    pub description: Option<String>,
}

/// An MCP server started as a child process speaking over stdio.
#[derive(Debug, Clone, PartialEq, Eq)]
pub struct StdioConfig {
    pub command: String,
    pub args: Vec<String>,
    pub env: StrMap<String>,
    pub allowed_tools: Vec<String>,
    pub denied_tools: Vec<String>,
}

/// An MCP server reached over HTTP.
#[derive(Debug, Clone, PartialEq, Eq)]
pub struct HttpConfig {
    pub url: String,
    pub headers: StrMap<String>,
    pub allowed_tools: Vec<String>,
    pub denied_tools: Vec<String>,
}

/// A registered MCP server.
#[derive(Debug, Clone, PartialEq, Eq)]
pub enum McpServerEntry {
    Stdio(StdioConfig),
    Http(HttpConfig),
}

/// The whole configuration: servers and CLI tools by name.
#[derive(Debug, Clone, PartialEq, Eq)]
pub struct GatewayConfig {
    pub mcp_servers: StrMap<McpServerEntry>,
    pub cli_tools: StrMap<CliToolDef>,
}

impl GatewayConfig {
    /// The empty configuration.
    pub fn new() -> (c: Self)
        ensures
            c.mcp_servers@ == Map::<Seq<char>, McpServerEntry>::empty(),
            c.cli_tools@ == Map::<Seq<char>, CliToolDef>::empty(),
    {
        GatewayConfig { mcp_servers: StrMap::new(), cli_tools: StrMap::new() }
    }
}

impl McpServerEntry {
    /// The tools this server may expose; empty means every tool.
    pub open spec fn allowed(self) -> Seq<String> {
        match self {
            McpServerEntry::Stdio(c) => c.allowed_tools@,
            McpServerEntry::Http(c) => c.allowed_tools@,
        }
    }

    /// The tools this server may never expose.
    pub open spec fn denied(self) -> Seq<String> {
        match self {
            McpServerEntry::Stdio(c) => c.denied_tools@,
            McpServerEntry::Http(c) => c.denied_tools@,
        }
    }

    /// The entry with its allowlist replaced by `tools`.
    pub open spec fn with_allowed(self, tools: Vec<String>) -> McpServerEntry {
        match self {
            McpServerEntry::Stdio(c) => McpServerEntry::Stdio(StdioConfig { allowed_tools: tools, ..c }),
            McpServerEntry::Http(c) => McpServerEntry::Http(HttpConfig { allowed_tools: tools, ..c }),
        }
    }

    /// The entry with its denylist replaced by `tools`.
    pub open spec fn with_denied(self, tools: Vec<String>) -> McpServerEntry {
        match self {
            McpServerEntry::Stdio(c) => McpServerEntry::Stdio(StdioConfig { denied_tools: tools, ..c }),
            McpServerEntry::Http(c) => McpServerEntry::Http(HttpConfig { denied_tools: tools, ..c }),
        }
    }

    pub fn allowed_tools(&self) -> (r: &[String])
        ensures
            r@ == self.allowed(),
    {
        match self {
            McpServerEntry::Stdio(c) => c.allowed_tools.as_slice(),
            McpServerEntry::Http(c) => c.allowed_tools.as_slice(),
        }
    }

    pub fn allowed_tools_mut(&mut self) -> (r: &mut Vec<String>)
        ensures
            r@ == old(self).allowed(),
            *final(self) == old(self).with_allowed(*final(r)),
    {
        match self {
            McpServerEntry::Stdio(c) => &mut c.allowed_tools,
            McpServerEntry::Http(c) => &mut c.allowed_tools,
        }
    }

    pub fn denied_tools(&self) -> (r: &[String])
        ensures
            r@ == self.denied(),
    {
        match self {
            McpServerEntry::Stdio(c) => c.denied_tools.as_slice(),
            McpServerEntry::Http(c) => c.denied_tools.as_slice(),
        }
    }

    pub fn denied_tools_mut(&mut self) -> (r: &mut Vec<String>)
        ensures
            r@ == old(self).denied(),
            *final(self) == old(self).with_denied(*final(r)),
    {
        match self {
            McpServerEntry::Stdio(c) => &mut c.denied_tools,
            McpServerEntry::Http(c) => &mut c.denied_tools,
        }
    }
}

/// Replacing one list of a server changes that list only: the other list,
/// the transport and its settings stay as they were.
pub proof fn law_list_replacement(entry: McpServerEntry, tools: Vec<String>)
    ensures
        entry.with_allowed(tools).allowed() == tools@,
        entry.with_allowed(tools).denied() == entry.denied(),
        entry.with_denied(tools).denied() == tools@,
        entry.with_denied(tools).allowed() == entry.allowed(),
        (entry.with_allowed(tools) is Stdio) == (entry is Stdio),
        (entry.with_denied(tools) is Stdio) == (entry is Stdio),
{
}

} // verus!
