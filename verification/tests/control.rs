use sim_core::analysis::floor_pow2;
use sim_core::brake::{check_stage1_cylinder_count, Engagement, MAX_STAGE};
use sim_core::control::{advance_gate, check_brake_stage, check_gear, gear_index, FaultLatch};
use sim_core::error::{ErrorCode, SimError};
use sim_core::injection::Variant;
use sim_core::snapshot::{RunState, SimFault};
use sim_core::starter::RelayLatch;

/// The engine brake fixture: 1000 rpm floor, three cylinders in stage I.
const MIN_SPEED_RPM: f64 = 1000.0;
const STAGE1_CYLINDERS: u32 = 3;

fn command(cylinders: usize, stage: u8, pedal: f64, rpm: f64) -> Engagement {
    Engagement::resolve(stage, pedal > 0.0, rpm > MIN_SPEED_RPM, STAGE1_CYLINDERS, cylinders)
}

#[test]
fn stage_zero_is_inert() {
    let c = command(6, 0, 0.0, 1500.0);
    assert!(!c.active);
    assert_eq!(c.braked_cylinders, 0);
}

#[test]
fn the_published_speed_floor_is_honoured() {
    assert!(!command(6, 3, 0.0, 999.0).active);
    assert!(!command(6, 3, 0.0, MIN_SPEED_RPM).active);
    assert!(command(6, 3, 0.0, 1001.0).active);
}

#[test]
fn touching_the_pedal_releases_the_brake() {
    assert!(command(6, 3, 0.0, 1500.0).active);
    assert!(!command(6, 3, 0.01, 1500.0).active);
}

#[test]
fn stage_one_brakes_the_published_three_cylinders_and_the_rest_brake_all() {
    assert_eq!(command(6, 1, 0.0, 1500.0).braked_cylinders, 3);
    assert_eq!(command(6, 2, 0.0, 1500.0).braked_cylinders, 6);
    assert_eq!(command(6, 3, 0.0, 1500.0).braked_cylinders, 6);
}

#[test]
fn a_smaller_engine_cannot_brake_more_cylinders_than_it_has() {
    assert_eq!(command(2, 1, 0.0, 1500.0).braked_cylinders, 2);
}

#[test]
fn an_excessive_stage_request_is_clamped_and_cylinders_are_counted_from_the_first() {
    let c = command(6, 9, 0.0, 1500.0);
    assert_eq!(c.stage, MAX_STAGE);
    let s1 = command(6, 1, 0.0, 1500.0);
    assert!(s1.brakes_cylinder(0) && s1.brakes_cylinder(2));
    assert!(!s1.brakes_cylinder(3));
    assert!(!command(6, 0, 0.0, 1500.0).brakes_cylinder(0));
}

#[test]
fn a_latched_fault_is_returned_for_every_advance() {
    let fault = SimError::new(ErrorCode::NonFiniteState, "cylinder 1 pressure is NaN");
    let latched = Some(fault.clone());
    assert_eq!(advance_gate(&latched, 1, 4000), Err(fault.clone()));
    assert_eq!(advance_gate(&latched, 0, 4000), Err(fault.clone()));
    assert_eq!(advance_gate(&latched, 9000, 4000), Err(fault));
}

#[test]
fn an_oversized_batch_is_refused() {
    assert_eq!(advance_gate(&None, 4000, 4000), Ok(()));
    let e = advance_gate(&None, 4001, 4000).unwrap_err();
    assert_eq!(e.code, ErrorCode::StepLimitExceeded);
    assert_eq!(e.message, "requested 4001 steps, configured limit is 4000");
}

#[test]
fn brake_stage_and_gear_are_range_checked() {
    assert!(check_brake_stage(3).is_ok());
    let e = check_brake_stage(4).unwrap_err();
    assert_eq!(e.code, ErrorCode::InvalidControl);
    assert_eq!(e.message, "brake_stage must fall in [0, 3], got 4");
    assert!(check_gear(12, 12).is_ok());
    let e = check_gear(13, 12).unwrap_err();
    assert_eq!(e.code, ErrorCode::InvalidControl);
    assert_eq!(e.message, "gear must fall in [0, 12], got 13");
}

#[test]
fn stage_one_must_name_between_one_and_every_cylinder() {
    assert!(check_stage1_cylinder_count(3, 6).is_ok());
    assert!(check_stage1_cylinder_count(1, 6).is_ok());
    assert!(check_stage1_cylinder_count(6, 6).is_ok());
    for (count, cylinders) in [(0u32, 6usize), (7, 6), (1, 0)] {
        let e = check_stage1_cylinder_count(count, cylinders).unwrap_err();
        assert_eq!(e.code, ErrorCode::InvalidConfig);
        assert_eq!(
            e.message,
            "engine_brake.stage1_cylinder_count must name at least one and at most every cylinder"
        );
    }
}

#[test]
fn neutral_and_missing_gears_engage_nothing() {
    assert_eq!(gear_index(0, 12), None);
    assert_eq!(gear_index(13, 12), None);
    assert_eq!(gear_index(1, 12), Some(0));
    assert_eq!(gear_index(12, 12), Some(11));
}

#[test]
fn run_state_follows_fault_fuelling_and_speed() {
    assert_eq!(RunState::classify(true, true, true, true, true), RunState::Fault);
    assert_eq!(RunState::classify(false, true, false, true, true), RunState::Running);
    assert_eq!(RunState::classify(false, false, false, true, true), RunState::Cranking);
    assert_eq!(RunState::classify(false, true, true, false, false), RunState::Cranking);
    assert_eq!(RunState::classify(false, false, false, false, false), RunState::Stopped);
    assert_eq!(RunState::Cranking.as_str(), "cranking");
}

#[test]
fn a_fault_carries_the_code_and_message() {
    let e = SimError::new(ErrorCode::PressureEnvelopeExceeded, "over 250 bar");
    let f = SimFault::from_error(&e);
    assert_eq!(f.code, ErrorCode::PressureEnvelopeExceeded);
    assert_eq!(f.message, "over 250 bar");
}

#[test]
fn the_relay_drops_out_and_stays_out_until_the_key_is_released() {
    let mut relay = RelayLatch::new();
    assert!(relay.update(true, false), "cranking below the drop-out speed");
    assert!(!relay.update(true, true), "the engine caught");
    assert!(!relay.update(true, false), "a speed dip does not re-engage");
    assert!(!relay.update(false, false), "key released");
    assert!(relay.update(true, false), "turning the key again re-engages");
}

#[test]
fn the_injection_variant_follows_the_quantity_threshold() {
    assert_eq!(Variant::for_quantity(true), Variant::Amplified);
    assert_eq!(Variant::for_quantity(false), Variant::Standard);
    assert_eq!(Variant::Standard.as_str(), "standard");
    assert_eq!(Variant::Amplified.as_str(), "amplified");
}

#[test]
fn floor_pow2_finds_the_largest_power_of_two() {
    assert_eq!(floor_pow2(0), 1);
    assert_eq!(floor_pow2(1), 1);
    assert_eq!(floor_pow2(1023), 512);
    assert_eq!(floor_pow2(1024), 1024);
    assert_eq!(floor_pow2(usize::MAX), 1usize << (usize::BITS - 1));
}

#[test]
fn the_latch_holds_a_fault_until_cleared() {
    let mut latch = FaultLatch::new();
    assert!(!latch.is_faulted());
    assert_eq!(latch.gate(10, 4000), Ok(()));
    let fault = SimError::new(ErrorCode::PressureEnvelopeExceeded, "over the envelope");
    latch.latch(fault.clone());
    assert!(latch.is_faulted());
    assert_eq!(latch.gate(0, 4000), Err(fault.clone()));
    assert_eq!(latch.gate(5000, 4000), Err(fault));
    latch.clear();
    assert_eq!(latch.gate(4000, 4000), Ok(()));
    assert_eq!(latch.gate(4001, 4000).unwrap_err().code, ErrorCode::StepLimitExceeded);
}
