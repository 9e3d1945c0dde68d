//! The discrete gates on stepping and on control inputs.
//!
//! A batch of steps may not run once a fault is latched, nor exceed the
//! configured batch limit. A brake stage the hardware does not offer and a
//! gear the gearbox does not have are refused.

use vstd::prelude::*;
use vstd::string::StringExecFns;

use crate::brake::MAX_STAGE;
use crate::error::{step_limit_message, ErrorCode, SimError};
use crate::text::{decimal, decimal_string};

verus! {

/// Decide whether an `advance` of `steps` steps may run.
///
/// A latched fault is returned again, unchanged, on every later call; a batch
/// larger than `limit` is refused with a step-limit error; anything else may
/// run.
pub fn advance_gate(fault: &Option<SimError>, steps: u32, limit: u32) -> (result: Result<
    (),
    SimError,
>)
    ensures
        match fault {
            Some(f) => result == Err::<(), SimError>(*f),
            None => match result {
                Ok(()) => steps <= limit,
                Err(e) => {
                    &&& steps > limit
                    &&& e.code == ErrorCode::StepLimitExceeded
                    &&& e.message@ == step_limit_message(steps as nat, limit as nat)
                },
            },
        },
{
    match fault {
        Some(f) => Err(f.duplicate()),
        None => {
            if steps > limit {
                Err(SimError::step_limit_exceeded(steps, limit))
            } else {
                Ok(())
            }
        },
    }
}

/// The simulation's fault latch: empty until a step fails, then holding that
/// failure until the next reset.
#[derive(Clone, Debug, PartialEq, Eq)]
pub struct FaultLatch {
    pub latched: Option<SimError>,
}

impl FaultLatch {
    /// A latch holding nothing, as after a reset.
    pub fn new() -> (latch: Self)
        ensures
            latch.latched is None,
    {
        FaultLatch { latched: None }
    }

    /// Decide whether an `advance` of `steps` steps may run; see [`advance_gate`].
    pub fn gate(&self, steps: u32, limit: u32) -> (result: Result<(), SimError>)
        ensures
            match self.latched {
                Some(f) => result == Err::<(), SimError>(f),
                None => match result {
                    Ok(()) => steps <= limit,
                    Err(e) => {
                        &&& steps > limit
                        &&& e.code == ErrorCode::StepLimitExceeded
                        &&& e.message@ == step_limit_message(steps as nat, limit as nat)
                    },
                },
            },
    {
        advance_gate(&self.latched, steps, limit)
    }

    /// Record the failure of a step.
    pub fn latch(&mut self, error: SimError)
        ensures
            final(self).latched == Some(error),
    {
        self.latched = Some(error);
    }

    /// Forget any latched fault, as a deterministic reset does.
    pub fn clear(&mut self)
        ensures
            final(self).latched is None,
    {
        self.latched = None;
    }

    /// Whether a fault is latched.
    pub fn is_faulted(&self) -> (b: bool)
        ensures
            b == self.latched is Some,
    {
        self.latched.is_some()
    }
}

/// The message for a brake stage the hardware does not offer.
pub open spec fn brake_stage_message(stage: nat) -> Seq<char> {
    "brake_stage must fall in [0, 3], got "@ + decimal(stage)
}

/// The brake stage must be one the hardware offers.
pub fn check_brake_stage(stage: u8) -> (result: Result<(), SimError>)
    ensures
        match result {
            Ok(()) => stage <= MAX_STAGE,
            Err(e) => {
                &&& stage > MAX_STAGE
                &&& e.code == ErrorCode::InvalidControl
                &&& e.message@ == brake_stage_message(stage as nat)
            },
        },
{
    if stage <= MAX_STAGE {
        return Ok(());
    }
    let mut message = String::from_str("brake_stage must fall in [0, 3], got ");
    let found = decimal_string(stage as u64);
    message.append(found.as_str());
    Err(SimError { code: ErrorCode::InvalidControl, message })
}

/// The message for a gear the gearbox does not have.
pub open spec fn gear_message(gear_count: nat, gear: nat) -> Seq<char> {
    "gear must fall in [0, "@ + decimal(gear_count) + "], got "@ + decimal(gear)
}

/// The gear must be neutral (`0`) or one of the gearbox's `gear_count` gears.
pub fn check_gear(gear: u32, gear_count: u32) -> (result: Result<(), SimError>)
    ensures
        match result {
            Ok(()) => gear <= gear_count,
            Err(e) => {
                &&& gear > gear_count
                &&& e.code == ErrorCode::InvalidControl
                &&& e.message@ == gear_message(gear_count as nat, gear as nat)
            },
        },
{
    if gear <= gear_count {
        return Ok(());
    }
    let mut message = String::from_str("gear must fall in [0, ");
    let count = decimal_string(gear_count as u64);
    message.append(count.as_str());
    message.append("], got ");
    let found = decimal_string(gear as u64);
    message.append(found.as_str());
    Err(SimError { code: ErrorCode::InvalidControl, message })
}

/// Which gear ratio a selected gear engages: `None` in neutral (`0`) and for
/// a gear beyond the gearbox, otherwise the 0-based index of its ratio.
pub fn gear_index(gear: u32, gear_count: u32) -> (index: Option<usize>)
    ensures
        match index {
            Some(i) => 1 <= gear <= gear_count && i == gear - 1,
            None => gear == 0 || gear > gear_count,
        },
{
    if gear == 0 || gear > gear_count {
        None
    } else {
        Some((gear - 1) as usize)
    }
}

} // verus!
