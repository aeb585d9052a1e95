//! The configuration file model in its current form: MCP servers with
//! operation allowlists and denylists and optional OAuth, CLI operations, and
//! the single-instance switch.

pub mod error;
pub mod model;
pub mod store;
