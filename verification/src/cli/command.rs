//! The commands and arguments of the first form of the command line.

use vstd::prelude::*;

pub use crate::ui::command::{parse_key_value, parse_header};

verus! {

/// A proxy/firewall for Model Context Protocol (MCP) servers.
#[derive(Debug)]
pub struct Cli {
    /// Path to the configuration file
    pub config: Option<String>,
    pub command: Option<Command>,
}

#[derive(Debug)]
pub enum Command {
    /// Register a new MCP server
    Add(AddArgs),
    /// Manage tool allowlists
    Allowlist(AllowlistArgs),
    /// Manage tool denylists
    Denylist(DenylistArgs),
    /// List registered MCP servers
    List,
    /// Remove a registered MCP server
    Remove(RemoveArgs),
    /// Start the gateway proxy for all registered MCP servers
    Run,
}

#[derive(Debug)]
pub struct RemoveArgs {
    /// Name of the server to remove
    pub name: String,
}

#[derive(Debug)]
pub struct AllowlistArgs {
    pub action: AllowlistAction,
}

#[derive(Debug)]
pub enum AllowlistAction {
    /// Add tools to a server's allowlist
    Add(AllowlistModifyArgs),
    /// Remove tools from a server's allowlist
    Remove(AllowlistModifyArgs),
    /// Show a server's current allowlist
    Show(AllowlistShowArgs),
}

#[derive(Debug)]
pub struct AllowlistModifyArgs {
    /// Name of the server
    pub name: String,
    /// Tool names to add or remove (at least one)
    pub tools: Vec<String>,
}

#[derive(Debug)]
pub struct AllowlistShowArgs {
    /// Name of the server
    pub name: String,
}

#[derive(Debug)]
pub struct DenylistArgs {
    pub action: DenylistAction,
}

#[derive(Debug)]
pub enum DenylistAction {
    /// Add tools to a server's denylist
    Add(DenylistModifyArgs),
    /// Remove tools from a server's denylist
    Remove(DenylistModifyArgs),
    /// Show a server's current denylist
    Show(DenylistShowArgs),
}

#[derive(Debug)]
pub struct DenylistModifyArgs {
    /// Name of the server
    pub name: String,
    /// Tool names to add or remove (at least one)
    pub tools: Vec<String>,
}

#[derive(Debug)]
pub struct DenylistShowArgs {
    /// Name of the server
    pub name: String,
}

#[derive(Debug)]
pub struct AddArgs {
    /// Name for the server entry
    pub name: String,
    /// Transport type
    pub transport: TransportType,
    /// Command to run (required for the stdio transport)
    pub command: Option<String>,
    /// Arguments for the command (stdio transport)
    pub args: Vec<String>,
    /// Environment variables (KEY=VALUE)
    pub env_vars: Vec<(String, String)>,
    /// URL for the server (required for the http transport)
    pub url: Option<String>,
    /// HTTP headers (KEY:VALUE)
    pub headers: Vec<(String, String)>,
}

#[derive(Debug, Clone, Copy, PartialEq, Eq)]
pub enum TransportType {
    Stdio,
    Http,
}

} // verus!
