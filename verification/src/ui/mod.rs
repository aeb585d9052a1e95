//! The command-line interface of the gateway: its commands and arguments, and
//! what the registry commands print.

pub mod command;
pub mod runner;
