//! The background gateway's PID and port files, the check whether it runs,
//! and how it is stopped. Each file holds one decimal number; the caller
//! reads and removes the files and probes and signals the process, and the
//! machines here decide what happens next.

use vstd::prelude::*;
use crate::daemon::error::DaemonError;
use crate::path::{home_dir, joined, join_path};
use crate::text::{decimal, u64_to_decimal, parse_unsigned, parse_unsigned_str, trim, trim_str,
    int_error_message, IntErrorKind, lemma_trim_decimal, lemma_parse_decimal};

verus! {

/// The PID file under a home directory: `<home>/.mcp-gateway.pid`.
pub open spec fn pid_file_under(home: Seq<char>) -> Seq<char> {
    joined(home, ".mcp-gateway.pid"@)
}

/// The port file under a home directory: `<home>/.mcp-gateway.port`.
pub open spec fn port_file_under(home: Seq<char>) -> Seq<char> {
    joined(home, ".mcp-gateway.port"@)
}

/// Returns the PID file under `home`.
pub fn pid_path_in(home: &str) -> (p: String)
    ensures
        p@ == pid_file_under(home@),
{
    join_path(home, ".mcp-gateway.pid")
}

/// Returns the port file under `home`.
pub fn port_path_in(home: &str) -> (p: String)
    ensures
        p@ == port_file_under(home@),
{
    join_path(home, ".mcp-gateway.port")
}

/// The PID file under the user's home directory, when it is known.
pub fn default_pid_path() -> (p: Option<String>)
    ensures
        p matches Some(path) ==> exists|home: Seq<char>| path@ == #[trigger] pid_file_under(home),
{
    match home_dir() {
        Some(h) => Some(pid_path_in(h.as_str())),
        None => None,
    }
}

/// The port file under the user's home directory, when it is known.
pub fn default_port_path() -> (p: Option<String>)
    ensures
        p matches Some(path) ==> exists|home: Seq<char>| path@ == #[trigger] port_file_under(home),
{
    match home_dir() {
        Some(h) => Some(port_path_in(h.as_str())),
        None => None,
    }
}

/// The number a record file holds, surrounding white space aside, if it is
/// no greater than `max`.
pub open spec fn record_number(contents: Seq<char>, max: nat) -> Result<nat, IntErrorKind> {
    parse_unsigned(trim(contents), max)
}

/// Reads the process number of a PID file's contents.
pub fn pid_from_contents(contents: &str) -> (r: Result<u32, DaemonError>)
    ensures
        match record_number(contents@, u32::MAX as nat) {
            Ok(v) => r == Ok::<u32, DaemonError>(v as u32),
            Err(k) => r matches Err(DaemonError::PidRead { message }) && message@ == int_error_message(k),
        },
{
    match parse_unsigned_str(trim_str(contents), 0xffff_ffff) {
        Ok(v) => Ok(v as u32),
        Err(k) => Err(DaemonError::PidRead { message: k.message() }),
    }
}

/// Reads the port of a port file's contents.
pub fn port_from_contents(contents: &str) -> (r: Result<u16, DaemonError>)
    ensures
        match record_number(contents@, u16::MAX as nat) {
            Ok(v) => r == Ok::<u16, DaemonError>(v as u16),
            Err(k) => r matches Err(DaemonError::PidRead { message }) && message@ == int_error_message(k),
        },
{
    match parse_unsigned_str(trim_str(contents), 0xffff) {
        Ok(v) => Ok(v as u16),
        Err(k) => Err(DaemonError::PidRead { message: k.message() }),
    }
}

/// The contents written for a number: its decimal digits.
pub fn record_text(n: u32) -> (t: String)
    ensures
        t@ == decimal(n as nat),
{
    u64_to_decimal(n as u64)
}

/// What is written as a PID or port file is read back as the same number.
pub proof fn law_record_roundtrip(pid: u32, port: u16)
    ensures
        record_number(decimal(pid as nat), u32::MAX as nat) == Ok::<nat, IntErrorKind>(pid as nat),
        record_number(decimal(port as nat), u16::MAX as nat) == Ok::<nat, IntErrorKind>(port as nat),
{
    lemma_trim_decimal(pid as nat);
    lemma_parse_decimal(pid as nat, u32::MAX as nat);
    lemma_trim_decimal(port as nat);
    lemma_parse_decimal(port as nat, u16::MAX as nat);
}

/// The arguments of `kill` for sending `signal` to `pid`, or the failure for
/// process 0, which no signal is sent to.
pub fn signal_args(pid: u32, signal: &str) -> (r: Result<Vec<String>, DaemonError>)
    ensures
        pid != 0 ==> (r matches Ok(v) && v@.len() == 2 && v@[0]@ == "-"@ + signal@
            && v@[1]@ == decimal(pid as nat)),
        pid == 0 ==> (r matches Err(DaemonError::SignalFailed { message }) && message@ == "invalid PID 0"@),
{
    if pid == 0 {
        return Err(DaemonError::SignalFailed { message: String::from_str("invalid PID 0") });
    }
    let mut flag = String::from_str("-");
    flag.append(signal);
    let mut v = Vec::new();
    v.push(flag);
    v.push(u64_to_decimal(pid as u64));
    Ok(v)
}

/// What sending `signal` to `pid` comes to, given whether `kill` succeeded.
pub fn signal_outcome(pid: u32, signal: &str, success: bool) -> (r: Result<(), DaemonError>)
    ensures
        success ==> r is Ok,
        !success ==> (r matches Err(DaemonError::SignalFailed { message })
            && message@ == "kill -"@ + signal@ + " "@ + decimal(pid as nat) + " failed"@),
{
    if success {
        Ok(())
    } else {
        let mut m = String::from_str("kill -");
        m.append(signal);
        m.append(" ");
        m.append(u64_to_decimal(pid as u64).as_str());
        m.append(" failed");
        Err(DaemonError::SignalFailed { message: m })
    }
}

fn copy_result<T: Copy>(r: &Result<T, DaemonError>) -> (c: Result<T, DaemonError>)
    ensures
        c == *r,
{
    match r {
        Ok(v) => Ok(*v),
        Err(e) => Err(e.clone()),
    }
}

fn copy_unit_result(r: &Result<(), DaemonError>) -> (c: Result<(), DaemonError>)
    ensures
        c == *r,
{
    match r {
        Ok(u) => Ok(*u),
        Err(e) => Err(e.clone()),
    }
}

// ---------------------------------------------------------------------------
// Whether the gateway runs

/// Where the check whether the gateway runs stands.
#[derive(Debug, PartialEq, Eq)]
pub enum CheckPhase {
    /// Reading the PID file.
    Reading,
    /// Checking whether the recorded process is alive.
    Probing { pid: u32 },
    /// Removing a PID file whose process is gone.
    Discarding,
    /// Finished: the running process, if any, or the failure to read.
    Done(Result<Option<u32>, DaemonError>),
}

/// What the check asks of the caller.
#[derive(Debug, PartialEq, Eq)]
pub enum CheckAction {
    /// Read the PID file: `None` when there is none.
    ReadRecord { path: String },
    /// Check whether process `pid` is alive.
    Probe { pid: u32 },
    /// Remove the stale PID file, ignoring failure.
    RemoveRecord { path: String },
    /// The check is over.
    Finish(Result<Option<u32>, DaemonError>),
}

/// What came of the last action of the check.
#[derive(Debug, PartialEq, Eq)]
pub enum CheckEvent {
    Read(Result<Option<u32>, DaemonError>),
    Alive(bool),
    Removed,
}

/// The phase after `phase` on `event`; an event that does not answer the
/// pending action changes nothing.
pub open spec fn check_next(phase: CheckPhase, event: CheckEvent) -> CheckPhase {
    match (phase, event) {
        (CheckPhase::Reading, CheckEvent::Read(r)) => match r {
            Ok(Some(pid)) => CheckPhase::Probing { pid },
            Ok(None) => CheckPhase::Done(Ok(None)),
            Err(e) => CheckPhase::Done(Err(e)),
        },
        (CheckPhase::Probing { pid }, CheckEvent::Alive(alive)) =>
            if alive { CheckPhase::Done(Ok(Some(pid))) } else { CheckPhase::Discarding },
        (CheckPhase::Discarding, CheckEvent::Removed) => CheckPhase::Done(Ok(None)),
        (p, _) => p,
    }
}

/// Whether `action` is what `phase` asks of the caller checking `pid_path`.
pub open spec fn check_requested(phase: CheckPhase, pid_path: Seq<char>, action: CheckAction) -> bool {
    match phase {
        CheckPhase::Reading => action matches CheckAction::ReadRecord { path } && path@ == pid_path,
        CheckPhase::Probing { pid } => action == CheckAction::Probe { pid },
        CheckPhase::Discarding => action matches CheckAction::RemoveRecord { path } && path@ == pid_path,
        CheckPhase::Done(r) => action == CheckAction::Finish(r),
    }
}

/// The check whether the gateway recorded in `pid_path` runs.
pub struct RunningCheck {
    pub pid_path: String,
    pub phase: CheckPhase,
}

fn check_request(phase: &CheckPhase, pid_path: &str) -> (a: CheckAction)
    ensures
        check_requested(*phase, pid_path@, a),
{
    match phase {
        CheckPhase::Reading => CheckAction::ReadRecord { path: String::from_str(pid_path) },
        CheckPhase::Probing { pid } => CheckAction::Probe { pid: *pid },
        CheckPhase::Discarding => CheckAction::RemoveRecord { path: String::from_str(pid_path) },
        CheckPhase::Done(r) => CheckAction::Finish(copy_result(r)),
    }
}

impl RunningCheck {
    /// Takes in what came of the last action and returns the next one.
    pub fn step(&mut self, event: CheckEvent) -> (a: CheckAction)
        ensures
            final(self).pid_path == old(self).pid_path,
            final(self).phase == check_next(old(self).phase, event),
            check_requested(final(self).phase, final(self).pid_path@, a),
    {
        let mut phase = CheckPhase::Reading;
        std::mem::swap(&mut phase, &mut self.phase);
        let next = match (phase, event) {
            (CheckPhase::Reading, CheckEvent::Read(r)) => match r {
                Ok(Some(pid)) => CheckPhase::Probing { pid },
                Ok(None) => CheckPhase::Done(Ok(None)),
                Err(e) => CheckPhase::Done(Err(e)),
            },
            (CheckPhase::Probing { pid }, CheckEvent::Alive(alive)) =>
                if alive { CheckPhase::Done(Ok(Some(pid))) } else { CheckPhase::Discarding },
            (CheckPhase::Discarding, CheckEvent::Removed) => CheckPhase::Done(Ok(None)),
            (p, _) => p,
        };
        self.phase = next;
        check_request(&self.phase, self.pid_path.as_str())
    }
}

/// Begins checking whether the gateway recorded in `pid_path` runs: the first
/// action reads the PID file.
pub fn check_already_running(pid_path: String) -> (r: (RunningCheck, CheckAction))
    ensures
        r.0.pid_path == pid_path,
        r.0.phase == CheckPhase::Reading,
        check_requested(r.0.phase, pid_path@, r.1),
{
    let a = CheckAction::ReadRecord { path: pid_path.clone() };
    (RunningCheck { pid_path, phase: CheckPhase::Reading }, a)
}

/// Begins finding out the gateway's status, which is whether it runs.
pub fn daemon_status(pid_path: String) -> (r: (RunningCheck, CheckAction))
    ensures
        r.0.pid_path == pid_path,
        r.0.phase == CheckPhase::Reading,
        check_requested(r.0.phase, pid_path@, r.1),
{
    check_already_running(pid_path)
}

/// The check reports a process as running only if it was found alive, and a
/// PID file is removed only when its process was found dead.
pub proof fn law_check_reports_alive(phase: CheckPhase, event: CheckEvent)
    ensures
        check_next(phase, event) matches CheckPhase::Done(Ok(Some(pid))) ==>
            (phase is Done || (phase == (CheckPhase::Probing { pid }) && event == CheckEvent::Alive(true))),
        check_next(phase, event) == CheckPhase::Discarding && phase != CheckPhase::Discarding ==>
            phase is Probing && event == CheckEvent::Alive(false),
{
}

// ---------------------------------------------------------------------------
// Stopping the gateway

/// Where the stopping of the gateway stands, once it is known to run.
#[derive(Debug, PartialEq, Eq)]
pub enum DaemonStopPhase {
    /// Sending `TERM` to process `pid`.
    Signalling { pid: u32 },
    /// Checking whether `pid` has exited, after `polls` earlier checks.
    Polling { pid: u32, polls: u32 },
    /// Pausing after check number `polls + 1` found `pid` alive.
    Sleeping { pid: u32, polls: u32 },
    /// Removing the PID file.
    RemovingPid,
    /// Removing the port file.
    RemovingPort,
    /// Finished with this outcome.
    Done(Result<(), DaemonError>),
}

/// What the stopping asks of the caller.
#[derive(Debug, PartialEq, Eq)]
pub enum DaemonStopAction {
    Signal { pid: u32, signal: String },
    Probe { pid: u32 },
    Sleep { millis: u64 },
    /// Remove a record file; a missing file is no failure.
    RemoveRecord { path: String },
    Finish(Result<(), DaemonError>),
}

/// What came of the last action of the stopping.
#[derive(Debug, PartialEq, Eq)]
pub enum DaemonStopEvent {
    Signalled(Result<(), DaemonError>),
    Alive(bool),
    Slept,
    Removed(Result<(), DaemonError>),
}

/// The phase in which stopping begins, given what the check found.
pub open spec fn stop_start(running: Result<Option<u32>, DaemonError>) -> DaemonStopPhase {
    match running {
        Ok(Some(pid)) => DaemonStopPhase::Signalling { pid },
        Ok(None) => DaemonStopPhase::Done(Err(DaemonError::NotRunning)),
        Err(e) => DaemonStopPhase::Done(Err(e)),
    }
}

/// The phase after `phase` on `event`, when the port file is `port_path`.
pub open spec fn daemon_stop_next(phase: DaemonStopPhase, event: DaemonStopEvent, has_port_path: bool) -> DaemonStopPhase {
    match (phase, event) {
        (DaemonStopPhase::Signalling { pid }, DaemonStopEvent::Signalled(r)) => match r {
            Ok(_) => DaemonStopPhase::Polling { pid, polls: 0 },
            Err(e) => DaemonStopPhase::Done(Err(e)),
        },
        (DaemonStopPhase::Polling { pid, polls }, DaemonStopEvent::Alive(alive)) =>
            if alive { DaemonStopPhase::Sleeping { pid, polls } } else { DaemonStopPhase::RemovingPid },
        (DaemonStopPhase::Sleeping { pid, polls }, DaemonStopEvent::Slept) =>
            if polls + 1 < 100 {
                DaemonStopPhase::Polling { pid, polls: (polls + 1) as u32 }
            } else {
                DaemonStopPhase::RemovingPid
            },
        (DaemonStopPhase::RemovingPid, DaemonStopEvent::Removed(r)) => match r {
            Ok(_) => if has_port_path { DaemonStopPhase::RemovingPort } else { DaemonStopPhase::Done(Ok(())) },
            Err(e) => DaemonStopPhase::Done(Err(e)),
        },
        (DaemonStopPhase::RemovingPort, DaemonStopEvent::Removed(r)) => match r {
            Ok(_) => DaemonStopPhase::Done(Ok(())),
            Err(e) => DaemonStopPhase::Done(Err(e)),
        },
        (p, _) => p,
    }
}

/// Whether `action` is what `phase` asks of the caller.
pub open spec fn daemon_stop_requested(phase: DaemonStopPhase, pid_path: Seq<char>, port_path: Option<String>, action: DaemonStopAction) -> bool {
    match phase {
        DaemonStopPhase::Signalling { pid } => action matches DaemonStopAction::Signal { pid: p, signal }
            && p == pid && signal@ == "TERM"@,
        DaemonStopPhase::Polling { pid, .. } => action == DaemonStopAction::Probe { pid },
        DaemonStopPhase::Sleeping { .. } => action == DaemonStopAction::Sleep { millis: 50 },
        DaemonStopPhase::RemovingPid => action matches DaemonStopAction::RemoveRecord { path } && path@ == pid_path,
        DaemonStopPhase::RemovingPort => action matches DaemonStopAction::RemoveRecord { path }
            && port_path matches Some(pp) && path@ == pp@,
        DaemonStopPhase::Done(r) => action == DaemonStopAction::Finish(r),
    }
}

/// The stopping of the gateway recorded in `pid_path`, whose port is recorded
/// in `port_path` when that is known.
pub struct DaemonStop {
    pub pid_path: String,
    pub port_path: Option<String>,
    pub phase: DaemonStopPhase,
}

impl DaemonStop {
    fn request(&self) -> (a: DaemonStopAction)
        requires
            self.phase is RemovingPort ==> self.port_path is Some,
        ensures
            daemon_stop_requested(self.phase, self.pid_path@, self.port_path, a),
    {
        proof { reveal_strlit("TERM"); }
        match &self.phase {
            DaemonStopPhase::Signalling { pid } => DaemonStopAction::Signal { pid: *pid, signal: String::from_str("TERM") },
            DaemonStopPhase::Polling { pid, .. } => DaemonStopAction::Probe { pid: *pid },
            DaemonStopPhase::Sleeping { .. } => DaemonStopAction::Sleep { millis: 50 },
            DaemonStopPhase::RemovingPid => DaemonStopAction::RemoveRecord { path: self.pid_path.clone() },
            DaemonStopPhase::RemovingPort => match &self.port_path {
                Some(p) => DaemonStopAction::RemoveRecord { path: p.clone() },
                None => DaemonStopAction::Finish(Ok(())),
            },
            DaemonStopPhase::Done(r) => DaemonStopAction::Finish(copy_unit_result(r)),
        }
    }

    /// Takes in what came of the last action and returns the next one.
    pub fn step(&mut self, event: DaemonStopEvent) -> (a: DaemonStopAction)
        requires
            old(self).phase is RemovingPort ==> old(self).port_path is Some,
        ensures
            final(self).pid_path == old(self).pid_path,
            final(self).port_path == old(self).port_path,
            final(self).phase == daemon_stop_next(old(self).phase, event, old(self).port_path is Some),
            final(self).phase is RemovingPort ==> final(self).port_path is Some,
            daemon_stop_requested(final(self).phase, final(self).pid_path@, final(self).port_path, a),
    {
        let has_port = self.port_path.is_some();
        let mut phase = DaemonStopPhase::RemovingPid;
        std::mem::swap(&mut phase, &mut self.phase);
        let next = match (phase, event) {
            (DaemonStopPhase::Signalling { pid }, DaemonStopEvent::Signalled(r)) => match r {
                Ok(_) => DaemonStopPhase::Polling { pid, polls: 0 },
                Err(e) => DaemonStopPhase::Done(Err(e)),
            },
            (DaemonStopPhase::Polling { pid, polls }, DaemonStopEvent::Alive(alive)) =>
                if alive { DaemonStopPhase::Sleeping { pid, polls } } else { DaemonStopPhase::RemovingPid },
            (DaemonStopPhase::Sleeping { pid, polls }, DaemonStopEvent::Slept) =>
                if polls < 99 {
                    DaemonStopPhase::Polling { pid, polls: polls + 1 }
                } else {
                    DaemonStopPhase::RemovingPid
                },
            (DaemonStopPhase::RemovingPid, DaemonStopEvent::Removed(r)) => match r {
                Ok(_) => if has_port { DaemonStopPhase::RemovingPort } else { DaemonStopPhase::Done(Ok(())) },
                Err(e) => DaemonStopPhase::Done(Err(e)),
            },
            (DaemonStopPhase::RemovingPort, DaemonStopEvent::Removed(r)) => match r {
                Ok(_) => DaemonStopPhase::Done(Ok(())),
                Err(e) => DaemonStopPhase::Done(Err(e)),
            },
            (p, _) => p,
        };
        self.phase = next;
        self.request()
    }
}

/// Begins stopping the gateway, given what the check whether it runs found:
/// a running process is sent `TERM`; otherwise the stopping is over.
pub fn stop_daemon(pid_path: String, port_path: Option<String>, running: Result<Option<u32>, DaemonError>) -> (r: (DaemonStop, DaemonStopAction))
    ensures
        r.0.pid_path == pid_path,
        r.0.port_path == port_path,
        r.0.phase == stop_start(running),
        daemon_stop_requested(r.0.phase, pid_path@, port_path, r.1),
{
    let phase = match running {
        Ok(Some(pid)) => DaemonStopPhase::Signalling { pid },
        Ok(None) => DaemonStopPhase::Done(Err(DaemonError::NotRunning)),
        Err(e) => DaemonStopPhase::Done(Err(e)),
    };
    let s = DaemonStop { pid_path, port_path, phase };
    let a = s.request();
    (s, a)
}

/// An upper bound on the events still needed to finish from `phase`.
pub open spec fn daemon_stop_remaining(phase: DaemonStopPhase) -> nat {
    match phase {
        DaemonStopPhase::Signalling { .. } => 203,
        DaemonStopPhase::Polling { polls, .. } => (2 * (100 - polls) + 2) as nat,
        DaemonStopPhase::Sleeping { polls, .. } => (2 * (100 - polls) + 1) as nat,
        DaemonStopPhase::RemovingPid => 2,
        DaemonStopPhase::RemovingPort => 1,
        DaemonStopPhase::Done(_) => 0,
    }
}

/// Whether the poll count of `phase` is within bounds.
pub open spec fn daemon_stop_wf(phase: DaemonStopPhase) -> bool {
    match phase {
        DaemonStopPhase::Polling { polls, .. } => polls < 100,
        DaemonStopPhase::Sleeping { polls, .. } => polls < 100,
        _ => true,
    }
}

/// Every event either leaves the stopping where it is or brings it closer to
/// its end, so the gateway is polled at most a hundred times; and the
/// stopping succeeds only after the PID file was removed.
pub proof fn law_daemon_stop_progresses(phase: DaemonStopPhase, event: DaemonStopEvent, has_port_path: bool)
    requires
        daemon_stop_wf(phase),
    ensures
        daemon_stop_wf(daemon_stop_next(phase, event, has_port_path)),
        daemon_stop_next(phase, event, has_port_path) == phase
            || daemon_stop_remaining(daemon_stop_next(phase, event, has_port_path)) < daemon_stop_remaining(phase),
        daemon_stop_next(phase, event, has_port_path) matches DaemonStopPhase::Done(Ok(_))
            ==> (phase is Done || phase is RemovingPid || phase is RemovingPort),
{
}

} // verus!
