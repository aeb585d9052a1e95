//! The single background gateway: its PID and port files and how it is stopped.

pub mod error;
pub mod pid;
