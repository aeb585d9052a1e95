//! Failures of instance bookkeeping, with the messages shown to the user.

use vstd::prelude::*;
use crate::text::{decimal, u64_to_decimal};

verus! {

#[derive(Debug, PartialEq, Eq)]
pub enum DaemonError {
    AlreadyRunning { pid: u32, port: u16 },
    PortInUse { port: u16 },
    PidWrite { message: String },
    PidRead { message: String },
    NotRunning,
    SignalFailed { message: String },
    AttachFailed { message: String },
    LogRead { message: String },
    UserInput(String),
}

/// The message shown for each failure.
pub open spec fn daemon_error_message(e: DaemonError) -> Seq<char> {
    match e {
        DaemonError::AlreadyRunning { pid, port } =>
            "port "@ + decimal(port as nat) + " already in use by gateway (PID "@ + decimal(pid as nat)
                + "), use 'stop --port "@ + decimal(port as nat) + "' first or choose a different port"@,
        DaemonError::PortInUse { port } =>
            "port "@ + decimal(port as nat) + " is in use by another process, choose a different port with --port"@,
        DaemonError::PidWrite { message } => "failed to write PID file: "@ + message@,
        DaemonError::PidRead { message } => "failed to read PID file: "@ + message@,
        DaemonError::NotRunning => "no gateway instance found, start one with 'mcp-gateway start'"@,
        DaemonError::SignalFailed { message } => "failed to send signal: "@ + message@,
        DaemonError::AttachFailed { message } => "cannot attach: "@ + message@,
        DaemonError::LogRead { message } => "cannot read logs: "@ + message@,
        DaemonError::UserInput(message) => message@,
    }
}

fn prefixed(prefix: &str, message: &str) -> (s: String)
    ensures
        s@ == prefix@ + message@,
{
    let mut s = String::from_str(prefix);
    s.append(message);
    s
}

impl Clone for DaemonError {
    fn clone(&self) -> (c: Self)
        ensures
            c == *self,
    {
        match self {
            DaemonError::AlreadyRunning { pid, port } => DaemonError::AlreadyRunning { pid: *pid, port: *port },
            DaemonError::PortInUse { port } => DaemonError::PortInUse { port: *port },
            DaemonError::PidWrite { message } => DaemonError::PidWrite { message: message.clone() },
            DaemonError::PidRead { message } => DaemonError::PidRead { message: message.clone() },
            DaemonError::NotRunning => DaemonError::NotRunning,
            DaemonError::SignalFailed { message } => DaemonError::SignalFailed { message: message.clone() },
            DaemonError::AttachFailed { message } => DaemonError::AttachFailed { message: message.clone() },
            DaemonError::LogRead { message } => DaemonError::LogRead { message: message.clone() },
            DaemonError::UserInput(message) => DaemonError::UserInput(message.clone()),
        }
    }
}

impl DaemonError {
    /// The message shown to the user.
    pub fn to_string(&self) -> (s: String)
        ensures
            s@ == daemon_error_message(*self),
    {
        match self {
            DaemonError::AlreadyRunning { pid, port } => {
                let p = u64_to_decimal(*port as u64);
                let mut s = String::from_str("port ");
                s.append(p.as_str());
                s.append(" already in use by gateway (PID ");
                s.append(u64_to_decimal(*pid as u64).as_str());
                s.append("), use 'stop --port ");
                s.append(p.as_str());
                s.append("' first or choose a different port");
                s
            },
            DaemonError::PortInUse { port } => {
                let mut s = String::from_str("port ");
                s.append(u64_to_decimal(*port as u64).as_str());
                s.append(" is in use by another process, choose a different port with --port");
                s
            },
            DaemonError::PidWrite { message } => prefixed("failed to write PID file: ", message.as_str()),
            DaemonError::PidRead { message } => prefixed("failed to read PID file: ", message.as_str()),
            DaemonError::NotRunning => String::from_str("no gateway instance found, start one with 'mcp-gateway start'"),
            DaemonError::SignalFailed { message } => prefixed("failed to send signal: ", message.as_str()),
            DaemonError::AttachFailed { message } => prefixed("cannot attach: ", message.as_str()),
            DaemonError::LogRead { message } => prefixed("cannot read logs: ", message.as_str()),
            DaemonError::UserInput(message) => message.clone(),
        }
    }
}

} // verus!
