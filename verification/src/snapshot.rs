//! Coarse run state and latched faults as carried in telemetry snapshots.

use vstd::prelude::*;

use crate::error::{ErrorCode, SimError};

verus! {

/// Snapshot schema version. Bump only on a breaking change.
pub const SNAPSHOT_VERSION: u32 = 2;

/// Coarse run state, derived from crank speed and controls.
#[derive(Clone, Copy, Debug, PartialEq, Eq, Structural)]
pub enum RunState {
    Stopped,
    Cranking,
    Running,
    Fault,
}

/// The run state the rules give.
///
/// A latched fault overrides everything. Otherwise the engine is running when
/// fuelling is enabled and the crank has reached the starter cut-out speed,
/// cranking when the starter is requested or the crank is still turning, and
/// stopped otherwise.
pub open spec fn run_state_of(
    faulted: bool,
    ignition: bool,
    starter: bool,
    at_running_speed: bool,
    turning: bool,
) -> RunState {
    if faulted {
        RunState::Fault
    } else if ignition && at_running_speed {
        RunState::Running
    } else if starter || turning {
        RunState::Cranking
    } else {
        RunState::Stopped
    }
}

impl RunState {
    /// Classify the engine.
    ///
    /// `at_running_speed` is whether crank speed has reached the starter
    /// cut-out speed; `turning` is whether the crank exceeds one rpm.
    pub fn classify(
        faulted: bool,
        ignition: bool,
        starter: bool,
        at_running_speed: bool,
        turning: bool,
    ) -> (state: Self)
        ensures
            state == run_state_of(faulted, ignition, starter, at_running_speed, turning),
    {
        if faulted {
            RunState::Fault
        } else if ignition && at_running_speed {
            RunState::Running
        } else if starter || turning {
            RunState::Cranking
        } else {
            RunState::Stopped
        }
    }

    /// The lower-case wire string.
    pub fn as_str(self) -> (s: &'static str)
        ensures
            s@ == run_state_text(self),
    {
        match self {
            RunState::Stopped => "stopped",
            RunState::Cranking => "cranking",
            RunState::Running => "running",
            RunState::Fault => "fault",
        }
    }
}

/// The wire string of each run state.
pub open spec fn run_state_text(state: RunState) -> Seq<char> {
    match state {
        RunState::Stopped => "stopped"@,
        RunState::Cranking => "cranking"@,
        RunState::Running => "running"@,
        RunState::Fault => "fault"@,
    }
}

/// The run-state rules, case by case. A latched fault is reported exactly when
/// one is latched. The engine is running exactly when it is not faulted,
/// fuelling is enabled and the crank has reached the starter cut-out speed.
/// Below that speed, or without fuelling, an unfaulted engine is never running:
/// it is cranking when the starter is requested or the crank is turning, and
/// stopped otherwise.
pub proof fn lemma_run_state_rules(
    faulted: bool,
    ignition: bool,
    starter: bool,
    at_running_speed: bool,
    turning: bool,
)
    ensures
        ({
            let s = run_state_of(faulted, ignition, starter, at_running_speed, turning);
            &&& (s == RunState::Fault) <==> faulted
            &&& (s == RunState::Running) <==> (!faulted && ignition && at_running_speed)
            &&& (!faulted && !(ignition && at_running_speed)) ==> s != RunState::Running
            &&& (!faulted && !at_running_speed && (starter || turning)) ==> s == RunState::Cranking
            &&& (!faulted && !ignition && (starter || turning)) ==> s == RunState::Cranking
            &&& (s == RunState::Cranking) <==> (!faulted && !(ignition && at_running_speed) && (
            starter || turning))
            &&& (s == RunState::Stopped) <==> (!faulted && !(ignition && at_running_speed)
                && !starter && !turning)
        }),
{
}

/// Each run state's wire string is its variant name in lower case, so no two
/// states share one.
pub proof fn lemma_run_state_wire_names(a: RunState, b: RunState)
    ensures
        run_state_text(RunState::Stopped) == "stopped"@,
        run_state_text(RunState::Cranking) == "cranking"@,
        run_state_text(RunState::Running) == "running"@,
        run_state_text(RunState::Fault) == "fault"@,
        run_state_text(a) == run_state_text(b) <==> a == b,
{
    reveal_strlit("stopped");
    reveal_strlit("cranking");
    reveal_strlit("running");
    reveal_strlit("fault");
    if run_state_text(a) == run_state_text(b) && a != b {
        assert(run_state_text(a)[0] == run_state_text(b)[0]);
        assert(run_state_text(a).len() == run_state_text(b).len());
    }
}

/// A latched fault carried in the snapshot so the UI can show it without
/// needing the error to be thrown.
#[derive(Clone, Debug, PartialEq, Eq)]
pub struct SimFault {
    pub code: ErrorCode,
    pub message: String,
}

impl SimFault {
    /// The fault that reports `error`.
    pub fn from_error(error: &SimError) -> (fault: Self)
        ensures
            fault.code == error.code,
            fault.message == error.message,
    {
        SimFault { code: error.code, message: error.message.clone() }
    }
}

impl<'a> From<&'a SimError> for SimFault {
    fn from(error: &'a SimError) -> (fault: Self) {
        SimFault::from_error(error)
    }
}

impl<'a> vstd::std_specs::convert::FromSpecImpl<&'a SimError> for SimFault {
    open spec fn obeys_from_spec() -> bool {
        true
    }

    open spec fn from_spec(error: &'a SimError) -> SimFault {
        SimFault { code: error.code, message: error.message }
    }
}

} // verus!
