use sim_core::config::{
    check_max_steps_per_batch, check_nozzle_hole_count, check_sources_present, check_valve_counts,
    check_cylinder_count, check_firing_order, check_schema_version, firing_positions, require,
    validate_identity, Identity, MAX_CYLINDERS, SCHEMA_VERSION,
};
use sim_core::error::ErrorCode;

fn identity() -> Identity {
    Identity {
        id: "mercedes-benz-om471-9-m3d-375kw".to_string(),
        display_name: "OM 471".to_string(),
        manufacturer_reference: "Mercedes-Benz OM 471.9".to_string(),
        power_code: "M3D".to_string(),
        disclaimer: "Not an OEM calibration.".to_string(),
    }
}

#[test]
fn only_the_current_schema_is_accepted() {
    assert_eq!(SCHEMA_VERSION, 2);
    assert!(check_schema_version(2).is_ok());
    let e = check_schema_version(1).unwrap_err();
    assert_eq!(e.code, ErrorCode::InvalidConfig);
    assert_eq!(e.message, "unsupported schema_version 1, expected 2");
}

#[test]
fn require_passes_or_reports_the_message() {
    assert!(require(true, "x").is_ok());
    let e = require(false, "geometry.bore_m must be positive").unwrap_err();
    assert_eq!(e.code, ErrorCode::InvalidConfig);
    assert_eq!(e.message, "geometry.bore_m must be positive");
}

#[test]
fn identity_fields_must_not_be_blank() {
    assert!(validate_identity(&identity()).is_ok());
    let mut i = identity();
    i.id = " \t".to_string();
    assert_eq!(validate_identity(&i).unwrap_err().message, "identity.id must not be empty");
    let mut i = identity();
    i.display_name = String::new();
    assert_eq!(
        validate_identity(&i).unwrap_err().message,
        "identity.display_name must not be empty"
    );
    let mut i = identity();
    i.disclaimer = "   ".to_string();
    assert_eq!(
        validate_identity(&i).unwrap_err().message,
        "identity.disclaimer must not be empty; the model must never be presented as OEM data"
    );
    let mut i = identity();
    i.power_code = String::new();
    assert!(validate_identity(&i).is_ok(), "the power code may be empty");
}

#[test]
fn the_cylinder_count_must_fit_the_hot_state() {
    assert_eq!(MAX_CYLINDERS, 12);
    assert!(check_cylinder_count(1).is_ok());
    assert!(check_cylinder_count(12).is_ok());
    assert_eq!(
        check_cylinder_count(0).unwrap_err().message,
        "geometry.cylinders must be 1..=12, got 0"
    );
    assert_eq!(
        check_cylinder_count(13).unwrap_err().message,
        "geometry.cylinders must be 1..=12, got 13"
    );
}

#[test]
fn the_firing_order_must_be_a_permutation() {
    assert!(check_firing_order(6, &vec![1, 5, 3, 6, 2, 4]).is_ok());
    let e = check_firing_order(6, &vec![1, 5, 3, 6, 2]).unwrap_err();
    assert_eq!(e.code, ErrorCode::InvalidConfig);
    assert_eq!(e.message, "geometry.firing_order must list 6 cylinders, got 5");
    for bad in [vec![1, 5, 3, 6, 2, 2], vec![0, 1, 2, 3, 4, 5], vec![1, 2, 3, 4, 5, 7]] {
        assert_eq!(
            check_firing_order(6, &bad).unwrap_err().message,
            "geometry.firing_order must be a permutation of 1..=cylinders"
        );
    }
}

#[test]
fn firing_positions_invert_the_firing_order() {
    // Cylinder 1 fires first, cylinder 5 second, and so on.
    let order = vec![1, 5, 3, 6, 2, 4];
    assert_eq!(firing_positions(&order), vec![0, 4, 2, 5, 1, 3]);
    assert_eq!(firing_positions(&vec![1]), vec![0]);
}

#[test]
fn counted_parts_must_be_present() {
    assert!(check_valve_counts(2, 2).is_ok());
    assert_eq!(
        check_valve_counts(2, 0).unwrap_err().message,
        "each cylinder needs at least one intake and one exhaust valve"
    );
    assert!(check_nozzle_hole_count(8).is_ok());
    assert_eq!(
        check_nozzle_hole_count(0).unwrap_err().message,
        "injection.nozzle_hole_count must be at least 1"
    );
    assert!(check_max_steps_per_batch(1).is_ok());
    assert_eq!(
        check_max_steps_per_batch(0).unwrap_err().message,
        "solver.max_steps_per_batch must be at least 1"
    );
    let e = check_sources_present(&Vec::new()).unwrap_err();
    assert_eq!(e.code, ErrorCode::InvalidConfig);
    assert_eq!(e.message, "at least one source record is required");
}
