//! Registered MCP servers (stdio or HTTP, with optional OAuth) with their
//! operation allowlists and denylists, and CLI operations.

use vstd::prelude::*;
use crate::strmap::StrMap;

verus! {

/// Whether a flag is unset (the file omits such a flag).
pub fn is_false(v: &bool) -> (b: bool)
    ensures
        b == !*v,
{
    !*v
}

/// The local port on which the OAuth redirect is received unless configured otherwise.
pub open spec fn spec_default_redirect_port() -> u16 {
    9876
}

pub fn default_redirect_port() -> (p: u16)
    ensures
        p == spec_default_redirect_port(),
{
    9876
}

/// An operation backed by a local command, which reads the call's JSON
/// arguments on its standard input.
#[derive(Debug, Clone, PartialEq, Eq)]
pub struct CliOperationDef {
    pub command: String,
    pub description: Option<String>,
}

/// How the gateway authenticates to an HTTP server with OAuth.
#[derive(Debug, PartialEq, Eq)]
pub struct OAuthConfig {
    pub client_id: Option<String>,
    pub client_secret: Option<String>,
    pub scopes: Vec<String>,
    pub redirect_port: u16,
    pub credentials_file: Option<String>,
}

fn copy_text(s: &Option<String>) -> (c: Option<String>)
    ensures
        c == *s,
{
    match s {
        Some(t) => Some(t.clone()),
        None => None,
    }
}

/// Whether two sign-in settings say the same.
pub open spec fn same_oauth(a: OAuthConfig, b: OAuthConfig) -> bool {
    &&& a.client_id == b.client_id
    &&& a.client_secret == b.client_secret
    &&& a.scopes@ == b.scopes@
    &&& a.redirect_port == b.redirect_port
    &&& a.credentials_file == b.credentials_file
}

impl Clone for OAuthConfig {
    fn clone(&self) -> (c: Self)
        ensures
            same_oauth(c, *self),
    {
        OAuthConfig {
            client_id: copy_text(&self.client_id),
            client_secret: copy_text(&self.client_secret),
            scopes: crate::text::copy_strings(&self.scopes),
            redirect_port: self.redirect_port,
            credentials_file: copy_text(&self.credentials_file),
        }
    }
}

impl Default for OAuthConfig {
    /// No client registered ahead, no scopes, the default redirect port, the
    /// default credentials file.
    fn default() -> (c: Self)
        ensures
            c.client_id is None,
            c.client_secret is None,
            c.scopes@.len() == 0,
            c.redirect_port == spec_default_redirect_port(),
            c.credentials_file is None,
    {
        OAuthConfig {
            client_id: None,
            client_secret: None,
            scopes: Vec::new(),
            redirect_port: default_redirect_port(),
            credentials_file: None,
        }
    }
}

/// An MCP server started as a child process speaking over stdio.
#[derive(Debug, Clone, PartialEq, Eq)]
pub struct StdioConfig {
    pub command: String,
    pub args: Vec<String>,
    pub env: StrMap<String>,
    pub allowed_operations: Vec<String>,
    pub denied_operations: Vec<String>,
}

/// An MCP server reached over HTTP.
#[derive(Debug, Clone, PartialEq, Eq)]
pub struct HttpConfig {
    pub url: String,
    pub headers: StrMap<String>,
    pub allowed_operations: Vec<String>,
    pub denied_operations: Vec<String>,
    pub auth: Option<OAuthConfig>,
}

/// A registered MCP server.
#[derive(Debug, Clone, PartialEq, Eq)]
pub enum McpServerEntry {
    Stdio(StdioConfig),
    Http(HttpConfig),
}

/// The whole configuration: servers and CLI operations by name, and whether
/// only one gateway instance may run.
#[derive(Debug, Clone, PartialEq, Eq)]
pub struct GatewayConfig {
    pub mcp_servers: StrMap<McpServerEntry>,
    pub cli_operations: StrMap<CliOperationDef>,
    pub single_instance: bool,
}

impl Default for GatewayConfig {
    /// The configuration of a missing file: nothing registered.
    fn default() -> (c: Self)
        ensures
            c.mcp_servers@ == Map::<Seq<char>, McpServerEntry>::empty(),
            c.cli_operations@ == Map::<Seq<char>, CliOperationDef>::empty(),
            !c.single_instance,
    {
        GatewayConfig { mcp_servers: StrMap::new(), cli_operations: StrMap::new(), single_instance: false }
    }
}

impl GatewayConfig {
    /// The configuration with its servers replaced, as saving a registry's
    /// entries does; the other settings stay.
    pub fn with_servers(self, entries: StrMap<McpServerEntry>) -> (c: Self)
        ensures
            c.mcp_servers == entries,
            c.cli_operations == self.cli_operations,
            c.single_instance == self.single_instance,
    {
        GatewayConfig { mcp_servers: entries, ..self }
    }
}

impl McpServerEntry {
    /// The tools this server may expose; empty means every tool.
    pub open spec fn allowed(self) -> Seq<String> {
        match self {
            McpServerEntry::Stdio(c) => c.allowed_operations@,
            McpServerEntry::Http(c) => c.allowed_operations@,
        }
    }

    /// The tools this server may never expose.
    pub open spec fn denied(self) -> Seq<String> {
        match self {
            McpServerEntry::Stdio(c) => c.denied_operations@,
            McpServerEntry::Http(c) => c.denied_operations@,
        }
    }

    /// The allowlist as stored.
    pub open spec fn allowed_vec(self) -> Vec<String> {
        match self {
            McpServerEntry::Stdio(c) => c.allowed_operations,
            McpServerEntry::Http(c) => c.allowed_operations,
        }
    }

    /// The denylist as stored.
    pub open spec fn denied_vec(self) -> Vec<String> {
        match self {
            McpServerEntry::Stdio(c) => c.denied_operations,
            McpServerEntry::Http(c) => c.denied_operations,
        }
    }

    /// The entry with its allowlist replaced by `tools`.
    pub open spec fn with_allowed(self, tools: Vec<String>) -> McpServerEntry {
        match self {
            McpServerEntry::Stdio(c) => McpServerEntry::Stdio(StdioConfig { allowed_operations: tools, ..c }),
            McpServerEntry::Http(c) => McpServerEntry::Http(HttpConfig { allowed_operations: tools, ..c }),
        }
    }

    /// The entry with its denylist replaced by `tools`.
    pub open spec fn with_denied(self, tools: Vec<String>) -> McpServerEntry {
        match self {
            McpServerEntry::Stdio(c) => McpServerEntry::Stdio(StdioConfig { denied_operations: tools, ..c }),
            McpServerEntry::Http(c) => McpServerEntry::Http(HttpConfig { denied_operations: tools, ..c }),
        }
    }

    pub fn allowed_operations(&self) -> (r: &[String])
        ensures
            r@ == self.allowed(),
    {
        match self {
            McpServerEntry::Stdio(c) => c.allowed_operations.as_slice(),
            McpServerEntry::Http(c) => c.allowed_operations.as_slice(),
        }
    }

    pub fn allowed_operations_mut(&mut self) -> (r: &mut Vec<String>)
        ensures
            r@ == old(self).allowed(),
            *final(self) == old(self).with_allowed(*final(r)),
    {
        match self {
            McpServerEntry::Stdio(c) => &mut c.allowed_operations,
            McpServerEntry::Http(c) => &mut c.allowed_operations,
        }
    }

    pub fn denied_operations(&self) -> (r: &[String])
        ensures
            r@ == self.denied(),
    {
        match self {
            McpServerEntry::Stdio(c) => c.denied_operations.as_slice(),
            McpServerEntry::Http(c) => c.denied_operations.as_slice(),
        }
    }

    pub fn denied_operations_mut(&mut self) -> (r: &mut Vec<String>)
        ensures
            r@ == old(self).denied(),
            *final(self) == old(self).with_denied(*final(r)),
    {
        match self {
            McpServerEntry::Stdio(c) => &mut c.denied_operations,
            McpServerEntry::Http(c) => &mut c.denied_operations,
        }
    }
}

/// Replacing one list of a server changes that list only: the other list,
/// the transport and its settings stay as they were.
pub proof fn law_list_replacement(entry: McpServerEntry, tools: Vec<String>)
    ensures
        entry.with_allowed(tools).allowed() == tools@,
        entry.with_allowed(tools).denied() == entry.denied(),
        entry.with_denied(tools).denied() == tools@,
        entry.with_denied(tools).allowed() == entry.allowed(),
        entry.with_allowed(tools).with_allowed(entry.allowed_vec()) == entry,
        entry.with_denied(tools).with_denied(entry.denied_vec()) == entry,
        (entry.with_allowed(tools) is Stdio) == (entry is Stdio),
        (entry.with_denied(tools) is Stdio) == (entry is Stdio),
{
}

} // verus!
