//! The gateway's configuration file model: registered MCP servers and CLI tools.

pub mod model;
