//! The starter's latching relay.
//!
//! A real start relay latches: once the engine has caught, the starter cannot
//! re-engage without the key being released and turned again. A bare speed
//! comparison instead would make the relay chatter, because crank speed ripples
//! by tens of rpm over a firing cycle and the drop-out threshold sits inside
//! that ripple.

use vstd::prelude::*;

verus! {

/// The relay's memory after one step: letting go of the key rearms it, and
/// holding the key with the crank at or above the drop-out speed releases it.
pub open spec fn latch_next(released: bool, requested: bool, at_disengage_speed: bool) -> bool {
    if !requested {
        false
    } else if at_disengage_speed {
        true
    } else {
        released
    }
}

/// The relay's memory: whether it has dropped out since the key was turned.
#[derive(Clone, Copy, Debug, PartialEq, Eq, Structural)]
pub struct RelayLatch {
    pub released: bool,
}

impl RelayLatch {
    /// A relay with the key never turned.
    pub fn new() -> (latch: Self)
        ensures
            !latch.released,
    {
        RelayLatch { released: false }
    }

    /// Update the relay for one step and report whether it holds the starter in.
    pub fn update(&mut self, requested: bool, at_disengage_speed: bool) -> (holding: bool)
        ensures
            final(self).released == latch_next(old(self).released, requested, at_disengage_speed),
            holding == (requested && !final(self).released),
    {
        if !requested {
            self.released = false;
        } else if at_disengage_speed {
            self.released = true;
        }
        requested && !self.released
    }
}

/// The relay does not chatter: once released, holding the key keeps it
/// released whatever the crank speed does; only letting go rearms it.
/// Holding the key with the crank at the drop-out speed releases it, and a
/// relay not yet released stays in below that speed.
pub proof fn lemma_relay_latches(released: bool, at_disengage_speed: bool)
    ensures
        latch_next(true, true, at_disengage_speed),
        !latch_next(released, false, at_disengage_speed),
        latch_next(released, true, true),
        !latch_next(false, true, false),
{
}

} // verus!
