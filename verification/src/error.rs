//! Structured errors with stable string codes.
//!
//! The codes cross the worker boundary verbatim so that the worker and the UI
//! can branch on them without parsing English text. Do not rename an existing
//! code's string.

use vstd::prelude::*;
use vstd::string::StringExecFns;

use crate::text::{decimal, decimal_string};

verus! {

/// Stable machine-readable error codes.
#[derive(Clone, Copy, Debug, PartialEq, Eq, Structural)]
pub enum ErrorCode {
    /// A catalog selection named an ID that is not in the catalog.
    UnknownConfigId,
    /// An engine configuration failed schema, range, or provenance validation.
    InvalidConfig,
    /// A control input was non-finite or outside its documented range.
    InvalidControl,
    /// Integration produced a non-finite value; the simulation is latched into a fault.
    NonFiniteState,
    /// Cylinder pressure exceeded the configured validation envelope.
    PressureEnvelopeExceeded,
    /// A single `advance` call requested more steps than the configuration allows.
    StepLimitExceeded,
    /// An operation was attempted before the handle was initialised.
    NotInitialized,
}

/// The wire string of each code.
pub open spec fn code_text(code: ErrorCode) -> Seq<char> {
    match code {
        ErrorCode::UnknownConfigId => "UNKNOWN_CONFIG_ID"@,
        ErrorCode::InvalidConfig => "INVALID_CONFIG"@,
        ErrorCode::InvalidControl => "INVALID_CONTROL"@,
        ErrorCode::NonFiniteState => "NON_FINITE_STATE"@,
        ErrorCode::PressureEnvelopeExceeded => "PRESSURE_ENVELOPE_EXCEEDED"@,
        ErrorCode::StepLimitExceeded => "STEP_LIMIT_EXCEEDED"@,
        ErrorCode::NotInitialized => "NOT_INITIALIZED"@,
    }
}

impl ErrorCode {
    /// The stable wire string for this code.
    pub fn as_str(self) -> (s: &'static str)
        ensures
            s@ == code_text(self),
    {
        match self {
            ErrorCode::UnknownConfigId => "UNKNOWN_CONFIG_ID",
            ErrorCode::InvalidConfig => "INVALID_CONFIG",
            ErrorCode::InvalidControl => "INVALID_CONTROL",
            ErrorCode::NonFiniteState => "NON_FINITE_STATE",
            ErrorCode::PressureEnvelopeExceeded => "PRESSURE_ENVELOPE_EXCEEDED",
            ErrorCode::StepLimitExceeded => "STEP_LIMIT_EXCEEDED",
            ErrorCode::NotInitialized => "NOT_INITIALIZED",
        }
    }
}

/// Each code's wire string is its name in upper snake case, and distinct codes
/// have distinct wire strings, so a consumer that branches on the string can
/// always recover the code.
pub proof fn lemma_code_text_injective(a: ErrorCode, b: ErrorCode)
    ensures
        code_text(ErrorCode::UnknownConfigId) == "UNKNOWN_CONFIG_ID"@,
        code_text(ErrorCode::InvalidConfig) == "INVALID_CONFIG"@,
        code_text(ErrorCode::InvalidControl) == "INVALID_CONTROL"@,
        code_text(ErrorCode::NonFiniteState) == "NON_FINITE_STATE"@,
        code_text(ErrorCode::PressureEnvelopeExceeded) == "PRESSURE_ENVELOPE_EXCEEDED"@,
        code_text(ErrorCode::StepLimitExceeded) == "STEP_LIMIT_EXCEEDED"@,
        code_text(ErrorCode::NotInitialized) == "NOT_INITIALIZED"@,
        code_text(a) == code_text(b) <==> a == b,
{
    reveal_strlit("UNKNOWN_CONFIG_ID");
    reveal_strlit("INVALID_CONFIG");
    reveal_strlit("INVALID_CONTROL");
    reveal_strlit("NON_FINITE_STATE");
    reveal_strlit("PRESSURE_ENVELOPE_EXCEEDED");
    reveal_strlit("STEP_LIMIT_EXCEEDED");
    reveal_strlit("NOT_INITIALIZED");
    if code_text(a) == code_text(b) && a != b {
        let x = code_text(a);
        let y = code_text(b);
        assert(x.len() == y.len());
        assert(x[0] == y[0]);
        assert(x[4] == y[4]);
        assert(x[8] == y[8]);
    }
}

/// A structured simulation error.
#[derive(Clone, Debug, PartialEq, Eq)]
pub struct SimError {
    pub code: ErrorCode,
    pub message: String,
}

/// Convenience alias used across the crate.
pub type Result<T> = core::result::Result<T, SimError>;

/// The message of an unknown-configuration error.
pub open spec fn unknown_id_message(id: Seq<char>) -> Seq<char> {
    "no engine configuration with id `"@ + id + "`"@
}

/// The message of a step-limit error.
pub open spec fn step_limit_message(steps: nat, limit: nat) -> Seq<char> {
    "requested "@ + decimal(steps) + " steps, configured limit is "@ + decimal(limit)
}

impl SimError {
    /// An error with the given code and message.
    pub fn new(code: ErrorCode, message: &str) -> (e: Self)
        ensures
            e.code == code,
            e.message@ == message@,
    {
        SimError { code, message: String::from_str(message) }
    }

    /// A configuration validation failure.
    pub fn invalid_config(message: &str) -> (e: Self)
        ensures
            e.code == ErrorCode::InvalidConfig,
            e.message@ == message@,
    {
        Self::new(ErrorCode::InvalidConfig, message)
    }

    /// A rejected control input.
    pub fn invalid_control(message: &str) -> (e: Self)
        ensures
            e.code == ErrorCode::InvalidControl,
            e.message@ == message@,
    {
        Self::new(ErrorCode::InvalidControl, message)
    }

    /// A catalog selection named an ID that the catalog does not hold.
    pub fn unknown_config_id(id: &str) -> (e: Self)
        ensures
            e.code == ErrorCode::UnknownConfigId,
            e.message@ == unknown_id_message(id@),
    {
        let mut message = String::from_str("no engine configuration with id `");
        message.append(id);
        message.append("`");
        SimError { code: ErrorCode::UnknownConfigId, message }
    }

    /// An `advance` request for more steps than the configuration allows.
    pub fn step_limit_exceeded(steps: u32, limit: u32) -> (e: Self)
        ensures
            e.code == ErrorCode::StepLimitExceeded,
            e.message@ == step_limit_message(steps as nat, limit as nat),
    {
        let mut message = String::from_str("requested ");
        let steps_text = decimal_string(steps as u64);
        message.append(steps_text.as_str());
        message.append(" steps, configured limit is ");
        let limit_text = decimal_string(limit as u64);
        message.append(limit_text.as_str());
        SimError { code: ErrorCode::StepLimitExceeded, message }
    }

    /// A field-for-field copy.
    pub fn duplicate(&self) -> (e: Self)
        ensures
            e == *self,
    {
        SimError { code: self.code, message: self.message.clone() }
    }

    /// The human-readable form, `CODE: message`.
    pub fn display_text(&self) -> (s: String)
        ensures
            s@ == code_text(self.code) + ": "@ + self.message@,
    {
        let mut s = String::from_str(self.code.as_str());
        s.append(": ");
        s.append(self.message.as_str());
        s
    }
}

} // verus!
