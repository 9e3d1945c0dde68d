use sim_core::error::{ErrorCode, SimError};

const ALL: [ErrorCode; 7] = [
    ErrorCode::UnknownConfigId,
    ErrorCode::InvalidConfig,
    ErrorCode::InvalidControl,
    ErrorCode::NonFiniteState,
    ErrorCode::PressureEnvelopeExceeded,
    ErrorCode::StepLimitExceeded,
    ErrorCode::NotInitialized,
];

#[test]
fn every_code_has_its_stable_wire_string() {
    let strings: Vec<&str> = ALL.iter().map(|c| c.as_str()).collect();
    assert_eq!(
        strings,
        vec![
            "UNKNOWN_CONFIG_ID",
            "INVALID_CONFIG",
            "INVALID_CONTROL",
            "NON_FINITE_STATE",
            "PRESSURE_ENVELOPE_EXCEEDED",
            "STEP_LIMIT_EXCEEDED",
            "NOT_INITIALIZED",
        ]
    );
}

#[test]
fn no_two_codes_share_a_wire_string() {
    for (i, a) in ALL.iter().enumerate() {
        for (j, b) in ALL.iter().enumerate() {
            assert_eq!(a.as_str() == b.as_str(), i == j);
        }
    }
}

#[test]
fn constructors_set_the_code_and_keep_the_message() {
    let e = SimError::invalid_config("bad bore");
    assert_eq!(e.code, ErrorCode::InvalidConfig);
    assert_eq!(e.message, "bad bore");
    let e = SimError::invalid_control("bad pedal");
    assert_eq!(e.code, ErrorCode::InvalidControl);
    assert_eq!(e.message, "bad pedal");
    let e = SimError::new(ErrorCode::NonFiniteState, "nan");
    assert_eq!(e.code, ErrorCode::NonFiniteState);
    assert_eq!(e.message, "nan");
}

#[test]
fn an_unknown_id_names_the_id() {
    let e = SimError::unknown_config_id("nope");
    assert_eq!(e.code, ErrorCode::UnknownConfigId);
    assert_eq!(e.message, "no engine configuration with id `nope`");
}

#[test]
fn a_step_limit_error_states_both_numbers() {
    let e = SimError::step_limit_exceeded(4001, 4000);
    assert_eq!(e.code, ErrorCode::StepLimitExceeded);
    assert_eq!(e.message, "requested 4001 steps, configured limit is 4000");
}

#[test]
fn the_display_text_is_code_then_message() {
    let e = SimError::invalid_control("pedal must fall in [0, 1], got 2");
    assert_eq!(e.display_text(), "INVALID_CONTROL: pedal must fall in [0, 1], got 2");
    assert_eq!(e.duplicate(), e);
}
