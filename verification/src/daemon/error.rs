//! Failures of daemon bookkeeping, with the messages shown to the user.

use vstd::prelude::*;
use crate::text::{decimal, u64_to_decimal};

verus! {

#[derive(Debug, PartialEq, Eq)]
pub enum DaemonError {
    AlreadyRunning { pid: u32 },
    PortInUse { port: u16 },
    PidWrite { message: String },
    PidRead { message: String },
    NotRunning,
    SignalFailed { message: String },
}

/// The message shown for each failure.
pub open spec fn daemon_error_message(e: DaemonError) -> Seq<char> {
    match e {
        DaemonError::AlreadyRunning { pid } => "gateway already running (PID "@ + decimal(pid as nat) + ")"@,
        DaemonError::PortInUse { port } => "port "@ + decimal(port as nat) + " is already in use"@,
        DaemonError::PidWrite { message } => "failed to write PID file: "@ + message@,
        DaemonError::PidRead { message } => "failed to read PID file: "@ + message@,
        DaemonError::NotRunning => "no gateway instance found, start one with 'mcp-gateway start'"@,
        DaemonError::SignalFailed { message } => "failed to send signal: "@ + message@,
    }
}

impl Clone for DaemonError {
    fn clone(&self) -> (c: Self)
        ensures
            c == *self,
    {
        match self {
            DaemonError::AlreadyRunning { pid } => DaemonError::AlreadyRunning { pid: *pid },
            DaemonError::PortInUse { port } => DaemonError::PortInUse { port: *port },
            DaemonError::PidWrite { message } => DaemonError::PidWrite { message: message.clone() },
            DaemonError::PidRead { message } => DaemonError::PidRead { message: message.clone() },
            DaemonError::NotRunning => DaemonError::NotRunning,
            DaemonError::SignalFailed { message } => DaemonError::SignalFailed { message: message.clone() },
        }
    }
}

impl DaemonError {
    /// The message shown to the user.
    pub fn to_string(&self) -> (s: String)
        ensures
            s@ == daemon_error_message(*self),
    {
        match self {
            DaemonError::AlreadyRunning { pid } => {
                let mut s = String::from_str("gateway already running (PID ");
                s.append(u64_to_decimal(*pid as u64).as_str());
                s.append(")");
                s
            },
            DaemonError::PortInUse { port } => {
                let mut s = String::from_str("port ");
                s.append(u64_to_decimal(*port as u64).as_str());
                s.append(" is already in use");
                s
            },
            DaemonError::PidWrite { message } => {
                let mut s = String::from_str("failed to write PID file: ");
                s.append(message.as_str());
                s
            },
            DaemonError::PidRead { message } => {
                let mut s = String::from_str("failed to read PID file: ");
                s.append(message.as_str());
                s
            },
            DaemonError::NotRunning => String::from_str("no gateway instance found, start one with 'mcp-gateway start'"),
            DaemonError::SignalFailed { message } => {
                let mut s = String::from_str("failed to send signal: ");
                s.append(message.as_str());
                s
            },
        }
    }
}

} // verus!
