//! Stopping an instance: probe it, send it `TERM`, poll until it is gone (at
//! most a hundred times, fifty milliseconds apart), then clear its files.
//! The caller performs each action and reports what came of it.

use vstd::prelude::*;
use crate::process::error::DaemonError;
use crate::process::pid::{instance_files, instance_files_of};

verus! {

/// The number of polls after the signal before the instance's files are
/// cleared whether or not it has exited.
pub open spec fn max_polls() -> u32 {
    100
}

/// The pause between two polls, in milliseconds.
pub open spec fn poll_interval_millis() -> u64 {
    50
}

/// Where the stopping of an instance stands.
#[derive(Debug, PartialEq, Eq)]
pub enum StopPhase {
    /// Checking whether the instance runs at all.
    Probing,
    /// Sending it `TERM`.
    Signalling,
    /// Checking whether it has exited, after `polls` earlier checks.
    Polling { polls: u32 },
    /// Pausing after check number `polls + 1` found it alive.
    Sleeping { polls: u32 },
    /// Removing its files; `stopped` tells whether it was signalled.
    Clearing { stopped: bool },
    /// Finished with this outcome.
    Done(Result<(), DaemonError>),
}

/// What the caller is asked to do next.
#[derive(Debug, PartialEq, Eq)]
pub enum StopAction {
    /// Check whether process `pid` is alive.
    Probe { pid: u32 },
    /// Send `signal` to process `pid`.
    Signal { pid: u32, signal: String },
    /// Pause for `millis` milliseconds.
    Sleep { millis: u64 },
    /// Remove these files, ignoring those that are already gone.
    Remove { paths: Vec<String> },
    /// Stopping is over, with this outcome.
    Finish(Result<(), DaemonError>),
}

/// What came of the last action.
#[derive(Debug, PartialEq, Eq)]
pub enum StopEvent {
    Alive(bool),
    Signalled(Result<(), DaemonError>),
    Slept,
    Removed,
}

/// The phase that follows `phase` on `event`; an event that does not answer
/// the pending action leaves the phase as it is.
pub open spec fn next_phase(phase: StopPhase, event: StopEvent) -> StopPhase {
    match (phase, event) {
        (StopPhase::Probing, StopEvent::Alive(alive)) =>
            if alive { StopPhase::Signalling } else { StopPhase::Clearing { stopped: false } },
        (StopPhase::Signalling, StopEvent::Signalled(r)) => match r {
            Ok(()) => StopPhase::Polling { polls: 0 },
            Err(e) => StopPhase::Done(Err(e)),
        },
        (StopPhase::Polling { polls }, StopEvent::Alive(alive)) =>
            if alive { StopPhase::Sleeping { polls } } else { StopPhase::Clearing { stopped: true } },
        (StopPhase::Sleeping { polls }, StopEvent::Slept) =>
            if polls + 1 < max_polls() {
                StopPhase::Polling { polls: (polls + 1) as u32 }
            } else {
                StopPhase::Clearing { stopped: true }
            },
        (StopPhase::Clearing { stopped }, StopEvent::Removed) =>
            StopPhase::Done(if stopped { Ok(()) } else { Err(DaemonError::NotRunning) }),
        (p, _) => p,
    }
}

/// Whether `action` is what `phase` asks of the caller stopping instance
/// `pid` of `run_dir`.
pub open spec fn requested(phase: StopPhase, run_dir: Seq<char>, pid: u32, action: StopAction) -> bool {
    match phase {
        StopPhase::Probing => action == StopAction::Probe { pid },
        StopPhase::Signalling => action matches StopAction::Signal { pid: p, signal } && p == pid && signal@ == "TERM"@,
        StopPhase::Polling { .. } => action == StopAction::Probe { pid },
        StopPhase::Sleeping { .. } => action == StopAction::Sleep { millis: poll_interval_millis() },
        StopPhase::Clearing { .. } => action matches StopAction::Remove { paths }
            && paths@.len() == 2 && paths@[0]@ == instance_files(run_dir, pid)[0]
            && paths@[1]@ == instance_files(run_dir, pid)[1],
        StopPhase::Done(r) => action == StopAction::Finish(r),
    }
}

/// Whether the poll count of `phase` is within bounds.
pub open spec fn phase_wf(phase: StopPhase) -> bool {
    match phase {
        StopPhase::Polling { polls } => polls < max_polls(),
        StopPhase::Sleeping { polls } => polls < max_polls(),
        _ => true,
    }
}

/// An upper bound on the events still needed to finish from `phase`.
pub open spec fn remaining_steps(phase: StopPhase) -> nat {
    match phase {
        StopPhase::Probing => 203,
        StopPhase::Signalling => 202,
        StopPhase::Polling { polls } => (2 * (100 - polls) + 1) as nat,
        StopPhase::Sleeping { polls } => (2 * (100 - polls)) as nat,
        StopPhase::Clearing { .. } => 1,
        StopPhase::Done(_) => 0,
    }
}

/// Whether the instance has been sent `TERM` successfully by the time the
/// stopping is in `phase`.
pub open spec fn signal_delivered(phase: StopPhase) -> bool {
    match phase {
        StopPhase::Polling { .. } | StopPhase::Sleeping { .. } => true,
        StopPhase::Clearing { stopped } => stopped,
        StopPhase::Done(r) => r is Ok,
        _ => false,
    }
}

/// The stopping of instance `pid`, whose files lie in `run_dir`.
pub struct InstanceStop {
    pub run_dir: String,
    pub pid: u32,
    pub phase: StopPhase,
}

fn request(phase: &StopPhase, run_dir: &str, pid: u32) -> (a: StopAction)
    ensures
        requested(*phase, run_dir@, pid, a),
{
    proof { reveal_strlit("TERM"); }
    match phase {
        StopPhase::Probing => StopAction::Probe { pid },
        StopPhase::Signalling => StopAction::Signal { pid, signal: String::from_str("TERM") },
        StopPhase::Polling { .. } => StopAction::Probe { pid },
        StopPhase::Sleeping { .. } => StopAction::Sleep { millis: 50 },
        StopPhase::Clearing { .. } => StopAction::Remove { paths: instance_files_of(run_dir, pid) },
        StopPhase::Done(r) => {
            let out: Result<(), DaemonError> = match r {
                Ok(u) => Ok(*u),
                Err(e) => Err(e.clone()),
            };
            assert(out == *r);
            StopAction::Finish(out)
        },
    }
}

impl InstanceStop {
    /// Takes in what came of the last action and returns the next one.
    pub fn step(&mut self, event: StopEvent) -> (a: StopAction)
        ensures
            final(self).run_dir == old(self).run_dir,
            final(self).pid == old(self).pid,
            final(self).phase == next_phase(old(self).phase, event),
            requested(final(self).phase, final(self).run_dir@, final(self).pid, a),
    {
        let mut phase = StopPhase::Probing;
        std::mem::swap(&mut phase, &mut self.phase);
        let next = match (phase, event) {
            (StopPhase::Probing, StopEvent::Alive(alive)) =>
                if alive { StopPhase::Signalling } else { StopPhase::Clearing { stopped: false } },
            (StopPhase::Signalling, StopEvent::Signalled(r)) => match r {
                Ok(()) => StopPhase::Polling { polls: 0 },
                Err(e) => StopPhase::Done(Err(e)),
            },
            (StopPhase::Polling { polls }, StopEvent::Alive(alive)) =>
                if alive { StopPhase::Sleeping { polls } } else { StopPhase::Clearing { stopped: true } },
            (StopPhase::Sleeping { polls }, StopEvent::Slept) =>
                if polls < 99 {
                    StopPhase::Polling { polls: polls + 1 }
                } else {
                    StopPhase::Clearing { stopped: true }
                },
            (StopPhase::Clearing { stopped }, StopEvent::Removed) =>
                StopPhase::Done(if stopped { Ok(()) } else { Err(DaemonError::NotRunning) }),
            (p, _) => p,
        };
        self.phase = next;
        request(&self.phase, self.run_dir.as_str(), self.pid)
    }
}

/// Begins stopping instance `pid` of `run_dir`: the first action probes it.
pub fn stop_instance(run_dir: String, pid: u32) -> (r: (InstanceStop, StopAction))
    ensures
        r.0.run_dir == run_dir,
        r.0.pid == pid,
        r.0.phase == StopPhase::Probing,
        r.1 == (StopAction::Probe { pid }),
{
    (InstanceStop { run_dir, pid, phase: StopPhase::Probing }, StopAction::Probe { pid })
}

/// Every event either leaves the stopping where it is or brings it closer to
/// the end: from the start at most 203 events lead to the outcome, so an
/// instance is polled at most a hundred times after it was signalled.
pub proof fn law_stop_progresses(phase: StopPhase, event: StopEvent)
    requires
        phase_wf(phase),
    ensures
        phase_wf(next_phase(phase, event)),
        next_phase(phase, event) == phase
            || remaining_steps(next_phase(phase, event)) < remaining_steps(phase),
        phase is Done ==> next_phase(phase, event) == phase,
        remaining_steps(StopPhase::Probing) == 203,
{
}

/// Stopping reports success only once `TERM` was delivered: the phases that
/// know of a delivered signal are entered only from one another, or from
/// sending the signal when it succeeded.
pub proof fn law_success_needs_signal(phase: StopPhase, event: StopEvent)
    ensures
        signal_delivered(next_phase(phase, event)) ==> signal_delivered(phase)
            || (phase == StopPhase::Signalling && event matches StopEvent::Signalled(Ok(_))),
        !signal_delivered(StopPhase::Probing),
        next_phase(phase, event) == StopPhase::Done(Ok(())) ==> signal_delivered(phase),
{
    match phase {
        StopPhase::Signalling => match event {
            StopEvent::Signalled(r) => match r {
                Ok(_) => {},
                Err(_) => {},
            },
            _ => {},
        },
        _ => {},
    }
}

/// Every outcome but a failed signal comes after the instance's files were
/// cleared.
pub proof fn law_outcome_after_clearing(phase: StopPhase, event: StopEvent)
    ensures
        next_phase(phase, event) is Done && !(phase is Done) ==>
            (phase is Clearing && event == StopEvent::Removed)
            || (phase == StopPhase::Signalling && event matches StopEvent::Signalled(Err(_))),
{
    match phase {
        StopPhase::Signalling => match event {
            StopEvent::Signalled(r) => match r {
                Ok(_) => {},
                Err(_) => {},
            },
            _ => {},
        },
        _ => {},
    }
}

} // verus!
