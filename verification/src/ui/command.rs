//! The commands and arguments of the gateway's command line.

use vstd::prelude::*;
use crate::text::{split_once, split_once_str, trim, trim_str};

verus! {

/// A proxy/firewall for Model Context Protocol (MCP) servers.
#[derive(Debug)]
pub struct Cli {
    /// Path to the configuration file
    pub config: Option<String>,
    /// Show verbose output (upstream logs, child stderr)
    pub verbose: bool,
    pub command: Option<Command>,
}

#[derive(Debug)]
pub enum Command {
    /// Register a new MCP server
    Add(AddArgs),
    /// Manage tool allowlists
    Allowlist(AllowlistArgs),
    /// Manage tool denylists
    Denylist(DenylistArgs),
    /// List registered MCP servers
    List,
    /// Remove a registered MCP server
    Remove(RemoveArgs),
    /// Start the gateway proxy in the foreground
    Run(RunArgs),
    /// Start the gateway as a background daemon
    Start(StartArgs),
    /// Stop a running gateway instance
    Stop(StopArgs),
    /// Show the status of running gateway instances
    Status(StatusArgs),
    /// Restart the gateway daemon
    Restart(StartArgs),
    /// Attach to a running gateway daemon and stream logs
    Attach(AttachArgs),
    /// Show logs from a running gateway instance
    Logs(LogsArgs),
    /// Manage OAuth authentication for upstream servers
    Oauth(OAuthArgs),
    /// Show policy rules configured for servers
    Rules(RulesArgs),
    /// List tools exposed by upstream providers (live query)
    Tools(ToolsArgs),
}

#[derive(Debug)]
pub struct StopArgs {
    /// Port of the instance to stop (prompts if multiple running)
    pub port: Option<u16>,
    /// Stop all running instances
    pub all: bool,
}

#[derive(Debug)]
pub struct StatusArgs {
    /// Port of the instance to inspect (prompts if multiple running)
    pub port: Option<u16>,
}

#[derive(Debug)]
pub struct AttachArgs {
    /// Port to connect to (prompts if multiple running)
    pub port: Option<u16>,
}

#[derive(Debug)]
pub struct LogsArgs {
    /// Port of the instance to read logs from (prompts if multiple running)
    pub port: Option<u16>,
    /// Follow log output (like tail -f)
    pub follow: bool,
}

#[derive(Debug)]
pub struct RunArgs {
    /// Downstream transport protocol
    pub transport: DownstreamTransport,
    /// Port for HTTP transport
    pub port: u16,
}

#[derive(Debug)]
pub struct StartArgs {
    /// Downstream transport protocol (only http is supported for daemon mode)
    pub transport: DownstreamTransport,
    /// Port for HTTP transport
    pub port: u16,
    /// Run in foreground (used internally by daemon launcher)
    pub foreground: bool,
}

#[derive(Debug, Clone, Copy, PartialEq, Eq)]
pub enum DownstreamTransport {
    Stdio,
    Http,
}

#[derive(Debug)]
pub struct OAuthArgs {
    pub action: OAuthAction,
}

#[derive(Debug)]
pub enum OAuthAction {
    /// Run OAuth authentication for servers missing credentials
    Login(OAuthLoginArgs),
    /// Clear stored OAuth credentials
    Clear(OAuthClearArgs),
}

#[derive(Debug)]
pub struct OAuthLoginArgs {
    /// Name of a specific server to authenticate (authenticates all if omitted)
    pub name: Option<String>,
}

#[derive(Debug)]
pub struct OAuthClearArgs {
    /// Name of the server to clear credentials for (clears all if omitted)
    pub name: Option<String>,
    /// Skip confirmation prompt when clearing all credentials
    pub force: bool,
}

#[derive(Debug)]
pub struct RulesArgs {
    /// Name of a specific server to inspect (shows all if omitted)
    pub name: Option<String>,
}

#[derive(Debug)]
pub struct ToolsArgs {
    /// Name of a specific server to inspect (shows all if omitted)
    pub name: Option<String>,
}

#[derive(Debug)]
pub struct RemoveArgs {
    /// Name of the server to remove
    pub name: String,
}

#[derive(Debug)]
pub struct AllowlistArgs {
    pub action: AllowlistAction,
}

#[derive(Debug)]
pub enum AllowlistAction {
    /// Add tools to a server's allowlist
    Add(AllowlistModifyArgs),
    /// Remove tools from a server's allowlist
    Remove(AllowlistModifyArgs),
    /// Show a server's current allowlist
    Show(AllowlistShowArgs),
}

#[derive(Debug)]
pub struct AllowlistModifyArgs {
    /// Name of the server
    pub name: String,
    /// Tool names to add or remove
    pub tools: Vec<String>,
}

#[derive(Debug)]
pub struct AllowlistShowArgs {
    /// Name of the server
    pub name: String,
}

#[derive(Debug)]
pub struct DenylistArgs {
    pub action: DenylistAction,
}

#[derive(Debug)]
pub enum DenylistAction {
    /// Add tools to a server's denylist
    Add(DenylistModifyArgs),
    /// Remove tools from a server's denylist
    Remove(DenylistModifyArgs),
    /// Show a server's current denylist
    Show(DenylistShowArgs),
}

#[derive(Debug)]
pub struct DenylistModifyArgs {
    /// Name of the server
    pub name: String,
    /// Tool names to add or remove
    pub tools: Vec<String>,
}

#[derive(Debug)]
pub struct DenylistShowArgs {
    /// Name of the server
    pub name: String,
}

#[derive(Debug)]
pub struct AddArgs {
    /// Name for the server entry
    pub name: String,
    /// Transport type
    pub transport: TransportType,
    /// Command to run (stdio transport)
    pub command: Option<String>,
    /// Arguments for the command (stdio transport)
    pub args: Vec<String>,
    /// Environment variables (KEY=VALUE)
    pub env_vars: Vec<(String, String)>,
    /// URL for the server (http transport)
    pub url: Option<String>,
    /// HTTP headers (KEY:VALUE)
    pub headers: Vec<(String, String)>,
}

#[derive(Debug, Clone, Copy, PartialEq, Eq)]
pub enum TransportType {
    Stdio,
    Http,
}

/// The message for an environment assignment without `=`.
pub open spec fn key_value_error(s: Seq<char>) -> Seq<char> {
    "expected KEY=VALUE, got '"@ + s + "'"@
}

/// The message for a header without `:`.
pub open spec fn header_error(s: Seq<char>) -> Seq<char> {
    "expected KEY:VALUE, got '"@ + s + "'"@
}

/// Splits `KEY=VALUE` at the first `=`.
pub fn parse_key_value(s: &str) -> (r: Result<(String, String), String>)
    ensures
        match r {
            Ok((k, v)) => split_once(s@, '=') == Some((k@, v@)),
            Err(m) => split_once(s@, '=') is None && m@ == key_value_error(s@),
        },
{
    match split_once_str(s, '=') {
        Some((k, v)) => Ok((String::from_str(k), String::from_str(v))),
        None => {
            let mut m = String::from_str("expected KEY=VALUE, got '");
            m.append(s);
            m.append("'");
            Err(m)
        },
    }
}

/// Splits `KEY:VALUE` at the first `:`, trimming white space around both.
pub fn parse_header(s: &str) -> (r: Result<(String, String), String>)
    ensures
        match r {
            Ok((k, v)) => split_once(s@, ':') is Some && k@ == trim((split_once(s@, ':')->0).0) && v@ == trim((split_once(s@, ':')->0).1),
            Err(m) => split_once(s@, ':') is None && m@ == header_error(s@),
        },
{
    match split_once_str(s, ':') {
        Some((k, v)) => Ok((String::from_str(trim_str(k)), String::from_str(trim_str(v)))),
        None => {
            let mut m = String::from_str("expected KEY:VALUE, got '");
            m.append(s);
            m.append("'");
            Err(m)
        },
    }
}

} // verus!
