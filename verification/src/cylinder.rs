//! Which boundary condition applies to a cylinder.
//!
//! Cylinder phase is read from the signed cycle angle `psi` measured from that
//! cylinder's firing top dead centre:
//!
//! ```text
//!   psi = -2*PI .. ivc     intake stroke and early compression (open to intake)
//!   psi =  ivc  .. evo     closed: compression, combustion, expansion
//!   psi =  evo  ..  2*PI   blowdown and exhaust stroke (open to exhaust)
//! ```

use vstd::prelude::*;

verus! {

/// Which boundary condition currently applies to a cylinder.
#[derive(Clone, Copy, Debug, PartialEq, Eq, Structural)]
pub enum Phase {
    /// Open to the intake manifold.
    Intake,
    /// Valves closed: compression, combustion, expansion.
    Closed,
    /// Open to the exhaust manifold.
    Exhaust,
}

/// The phase the valve events give. The intake boundary is checked first, so
/// an angle that is both at or before intake closing and at or after exhaust
/// opening (which a valid configuration never produces) reads as intake.
pub open spec fn phase_of(at_or_before_intake_close: bool, at_or_after_exhaust_open: bool) -> Phase {
    if at_or_before_intake_close {
        Phase::Intake
    } else if at_or_after_exhaust_open {
        Phase::Exhaust
    } else {
        Phase::Closed
    }
}

/// A cylinder is open to the intake exactly when its angle is at or before
/// intake closing. After intake closing it is open to the exhaust exactly when
/// the angle is at or after exhaust opening, and closed before that.
pub proof fn lemma_phase_follows_valve_events(
    at_or_before_intake_close: bool,
    at_or_after_exhaust_open: bool,
)
    ensures
        ({
            let p = phase_of(at_or_before_intake_close, at_or_after_exhaust_open);
            &&& (p == Phase::Intake) <==> at_or_before_intake_close
            &&& (p == Phase::Closed) <==> (!at_or_before_intake_close && !at_or_after_exhaust_open)
            &&& (p == Phase::Exhaust) <==> (!at_or_before_intake_close && at_or_after_exhaust_open)
        }),
{
}

impl Phase {
    /// The phase of a cylinder whose signed cycle angle is at or before intake
    /// valve closing (`at_or_before_intake_close`) or at or after exhaust valve
    /// opening (`at_or_after_exhaust_open`).
    pub fn at(at_or_before_intake_close: bool, at_or_after_exhaust_open: bool) -> (phase: Self)
        ensures
            phase == phase_of(at_or_before_intake_close, at_or_after_exhaust_open),
    {
        if at_or_before_intake_close {
            Phase::Intake
        } else if at_or_after_exhaust_open {
            Phase::Exhaust
        } else {
            Phase::Closed
        }
    }
}

} // verus!
