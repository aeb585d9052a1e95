//! The logic of an MCP gateway, verified with Verus: the configuration model,
//! the allowlist/denylist tool policy, CLI tool templates and their results,
//! the registry of servers and what its commands print, the bookkeeping and
//! stopping of background instances, the OAuth sign-in steps, and the
//! headers and stand-in authorization endpoints of the HTTP transport.

pub mod text;
pub mod path;
pub mod strmap;
pub mod filter;
pub mod template;
pub mod config;
pub mod configuration;
pub mod cli_runner;
pub mod cli_tools;
pub mod cli_execution;
pub mod daemon;
pub mod process;
pub mod oauth;
pub mod proxy;
pub mod registry;
pub mod ui;
pub mod cli;
