//! Which stage of the staged decompression engine brake engages, and on how
//! many cylinders.
//!
//! | Stage | Cylinders braked |
//! |---|---|
//! | I | the first `stage1_cylinder_count` cylinders |
//! | II | every cylinder |
//! | III | every cylinder, plus the wastegate and EGR commands |
//!
//! The brake is permitted only with the drive pedal released and above a
//! speed floor. Asking for a stage is not the same as getting it.

use vstd::prelude::*;

use crate::error::{ErrorCode, SimError};

verus! {

/// The highest stage the hardware offers.
pub const MAX_STAGE: u8 = 3;

/// What the brake does this step: whether it operates, the stage in force,
/// and how many cylinders, counted from the first, it brakes.
#[derive(Clone, Copy, Debug, PartialEq, Eq, Structural)]
pub struct Engagement {
    /// Whether the brake is actually operating.
    pub active: bool,
    /// The stage in force, `0` when inactive.
    pub stage: u8,
    /// How many cylinders, counted from the first, are braked.
    pub braked_cylinders: usize,
}

/// The brake doing nothing.
pub open spec fn released() -> Engagement {
    Engagement { active: false, stage: 0, braked_cylinders: 0 }
}

/// The engagement the rules give.
///
/// The requested stage is clamped to [`MAX_STAGE`]. Stage zero, a pressed
/// pedal, or a crank at or below the speed floor release the brake. Stage I
/// brakes `stage1_cylinder_count` cylinders (no more than the engine has);
/// higher stages brake them all.
pub open spec fn engagement_of(
    requested_stage: u8,
    pedal_pressed: bool,
    above_speed_floor: bool,
    stage1_cylinder_count: u32,
    cylinder_count: usize,
) -> Engagement {
    let stage = if requested_stage > MAX_STAGE {
        MAX_STAGE
    } else {
        requested_stage
    };
    if stage == 0 || pedal_pressed || !above_speed_floor {
        released()
    } else {
        Engagement {
            active: true,
            stage,
            braked_cylinders: if stage == 1 && (stage1_cylinder_count as int) < cylinder_count {
                stage1_cylinder_count as usize
            } else {
                cylinder_count
            },
        }
    }
}

impl Engagement {
    /// Resolve a requested stage against the operating conditions.
    ///
    /// `pedal_pressed` is whether the drive pedal is above zero;
    /// `above_speed_floor` is whether crank speed exceeds the brake's minimum.
    pub fn resolve(
        requested_stage: u8,
        pedal_pressed: bool,
        above_speed_floor: bool,
        stage1_cylinder_count: u32,
        cylinder_count: usize,
    ) -> (engagement: Self)
        ensures
            engagement == engagement_of(
                requested_stage,
                pedal_pressed,
                above_speed_floor,
                stage1_cylinder_count,
                cylinder_count,
            ),
    {
        let stage = if requested_stage > MAX_STAGE {
            MAX_STAGE
        } else {
            requested_stage
        };
        if stage == 0 || pedal_pressed || !above_speed_floor {
            return Engagement { active: false, stage: 0, braked_cylinders: 0 };
        }
        let braked_cylinders = if stage == 1 && (stage1_cylinder_count as u64) < (
        cylinder_count as u64) {
            stage1_cylinder_count as usize
        } else {
            cylinder_count
        };
        Engagement { active: true, stage, braked_cylinders }
    }

    /// Whether the cylinder at 0-based `index` is braked this step.
    pub fn brakes_cylinder(&self, index: usize) -> (b: bool)
        ensures
            b == (self.active && index < self.braked_cylinders),
    {
        self.active && index < self.braked_cylinders
    }
}

/// Stage I must brake at least one cylinder and at most every cylinder.
pub fn check_stage1_cylinder_count(count: u32, cylinders: usize) -> (result: Result<(), SimError>)
    ensures
        match result {
            Ok(()) => 0 < count && count as int <= cylinders,
            Err(e) => {
                &&& !(0 < count && count as int <= cylinders)
                &&& e.code == ErrorCode::InvalidConfig
                &&& e.message@
                    == "engine_brake.stage1_cylinder_count must name at least one and at most every cylinder"@
            },
        },
{
    if count > 0 && (count as u64) <= (cylinders as u64) {
        Ok(())
    } else {
        Err(
            SimError::invalid_config(
                "engine_brake.stage1_cylinder_count must name at least one and at most every cylinder",
            ),
        )
    }
}

/// The brake operates exactly when a nonzero stage is requested with the pedal
/// released above the speed floor. While it operates, the stage in force is the
/// requested stage, except that a request above stage III runs stage III; stage
/// I brakes as many cylinders as configured but no more than the engine has,
/// and stages II and III brake every cylinder.
pub proof fn lemma_stage_in_force(
    requested_stage: u8,
    pedal_pressed: bool,
    above_speed_floor: bool,
    stage1_cylinder_count: u32,
    cylinder_count: usize,
)
    ensures
        ({
            let e = engagement_of(
                requested_stage,
                pedal_pressed,
                above_speed_floor,
                stage1_cylinder_count,
                cylinder_count,
            );
            &&& e.active <==> (requested_stage >= 1 && !pedal_pressed && above_speed_floor)
            &&& (e.active && requested_stage <= 3) ==> e.stage == requested_stage
            &&& (e.active && requested_stage > 3) ==> e.stage == 3
            &&& (e.active && requested_stage == 1) ==> e.braked_cylinders as int == (if (
            stage1_cylinder_count as int) < cylinder_count {
                stage1_cylinder_count as int
            } else {
                cylinder_count as int
            })
            &&& (e.active && requested_stage >= 2) ==> e.braked_cylinders == cylinder_count
            &&& !e.active ==> e.stage == 0 && e.braked_cylinders == 0
        }),
{
}

/// The brake never brakes a cylinder the engine does not have, never reports
/// a stage the hardware does not offer, is released exactly when it brakes
/// nothing, and from stage II up brakes every cylinder.
pub proof fn lemma_engagement_bounds(
    requested_stage: u8,
    pedal_pressed: bool,
    above_speed_floor: bool,
    stage1_cylinder_count: u32,
    cylinder_count: usize,
)
    ensures
        ({
            let e = engagement_of(
                requested_stage,
                pedal_pressed,
                above_speed_floor,
                stage1_cylinder_count,
                cylinder_count,
            );
            &&& e.braked_cylinders <= cylinder_count
            &&& e.stage <= MAX_STAGE
            &&& e.active <==> e.stage > 0
            &&& !e.active ==> e.braked_cylinders == 0
            &&& e.stage >= 2 ==> e.braked_cylinders == cylinder_count
            &&& (requested_stage == 0 || pedal_pressed || !above_speed_floor) ==> e == released()
        }),
{
}

} // verus!
