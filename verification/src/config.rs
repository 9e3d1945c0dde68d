//! The discrete parts of configuration validation: schema version, identity,
//! cylinder count and firing order.
//!
//! Nothing reaches the solver without passing through validation. The checks
//! here are the ones that concern counts, orderings and text; the physical
//! range checks on real-valued parameters run between them, in the order the
//! full validation documents.

use vstd::prelude::*;
use vstd::string::StringExecFns;

use crate::error::{ErrorCode, SimError};
use crate::provenance::SourceRecord;
use crate::text::{blank, decimal, decimal_string, is_blank};

verus! {

/// The only configuration schema version understood by this build.
pub const SCHEMA_VERSION: u32 = 2;

/// Largest cylinder count the fixed-size hot state supports.
pub const MAX_CYLINDERS: usize = 12;

/// Identity and display metadata. Manufacturer names are factual references only.
#[derive(Clone, Debug, PartialEq, Eq)]
pub struct Identity {
    /// Stable selection key.
    pub id: String,
    pub display_name: String,
    /// Factual reference to the real engine. Not an endorsement or a trademark claim.
    pub manufacturer_reference: String,
    /// Power code the configuration represents, e.g. `M3D`.
    pub power_code: String,
    /// Shown in the UI so the model is never mistaken for an OEM calibration.
    pub disclaimer: String,
}

/// `Ok(())` when `cond` holds, otherwise an invalid-configuration error carrying `message`.
pub fn require(cond: bool, message: &str) -> (result: Result<(), SimError>)
    ensures
        match result {
            Ok(()) => cond,
            Err(e) => !cond && e.code == ErrorCode::InvalidConfig && e.message@ == message@,
        },
{
    if cond {
        Ok(())
    } else {
        Err(SimError::invalid_config(message))
    }
}

/// The message for an unsupported schema version.
pub open spec fn schema_message(version: nat) -> Seq<char> {
    "unsupported schema_version "@ + decimal(version) + ", expected "@ + decimal(
        SCHEMA_VERSION as nat,
    )
}

/// Reject every schema version but the one this build understands.
pub fn check_schema_version(version: u32) -> (result: Result<(), SimError>)
    ensures
        match result {
            Ok(()) => version == SCHEMA_VERSION,
            Err(e) => {
                &&& version != SCHEMA_VERSION
                &&& e.code == ErrorCode::InvalidConfig
                &&& e.message@ == schema_message(version as nat)
            },
        },
{
    if version == SCHEMA_VERSION {
        return Ok(());
    }
    let mut message = String::from_str("unsupported schema_version ");
    let found = decimal_string(version as u64);
    message.append(found.as_str());
    message.append(", expected ");
    let wanted = decimal_string(SCHEMA_VERSION as u64);
    message.append(wanted.as_str());
    Err(SimError { code: ErrorCode::InvalidConfig, message })
}

/// The first identity field that is blank, as the message reporting it.
pub open spec fn identity_fault(identity: Identity) -> Option<Seq<char>> {
    if blank(identity.id@) {
        Some("identity.id must not be empty"@)
    } else if blank(identity.display_name@) {
        Some("identity.display_name must not be empty"@)
    } else if blank(identity.disclaimer@) {
        Some(
            "identity.disclaimer must not be empty; the model must never be presented as OEM data"@,
        )
    } else {
        None
    }
}

/// The ID, display name and disclaimer must each hold more than white space.
pub fn validate_identity(identity: &Identity) -> (result: Result<(), SimError>)
    ensures
        match result {
            Ok(()) => identity_fault(*identity) is None,
            Err(e) => e.code == ErrorCode::InvalidConfig && identity_fault(*identity) == Some(
                e.message@,
            ),
        },
{
    require(!is_blank(identity.id.as_str()), "identity.id must not be empty")?;
    require(
        !is_blank(identity.display_name.as_str()),
        "identity.display_name must not be empty",
    )?;
    require(
        !is_blank(identity.disclaimer.as_str()),
        "identity.disclaimer must not be empty; the model must never be presented as OEM data",
    )
}

/// An identity is accepted exactly when its ID, display name and disclaimer
/// each hold more than white space; the manufacturer reference and power code
/// are free. A refusal names the first of those three fields, in that order,
/// that is blank.
pub proof fn lemma_identity_checks_three_fields(identity: Identity)
    ensures
        identity_fault(identity) is None <==> (!blank(identity.id@) && !blank(
            identity.display_name@,
        ) && !blank(identity.disclaimer@)),
        blank(identity.id@) ==> identity_fault(identity) == Some(
            "identity.id must not be empty"@,
        ),
        (!blank(identity.id@) && blank(identity.display_name@)) ==> identity_fault(identity)
            == Some("identity.display_name must not be empty"@),
        (!blank(identity.id@) && !blank(identity.display_name@) && blank(identity.disclaimer@))
            ==> identity_fault(identity) == Some(
            "identity.disclaimer must not be empty; the model must never be presented as OEM data"@,
        ),
{
}

/// Whether an identity is accepted, and why not, depends on its ID, display
/// name and disclaimer alone.
pub proof fn lemma_identity_ignores_other_fields(a: Identity, b: Identity)
    requires
        a.id@ == b.id@,
        a.display_name@ == b.display_name@,
        a.disclaimer@ == b.disclaimer@,
    ensures
        identity_fault(a) == identity_fault(b),
{
}

/// Each cylinder needs at least one intake and one exhaust valve.
pub fn check_valve_counts(intake_valves: u32, exhaust_valves: u32) -> (result: Result<(), SimError>)
    ensures
        match result {
            Ok(()) => intake_valves >= 1 && exhaust_valves >= 1,
            Err(e) => {
                &&& !(intake_valves >= 1 && exhaust_valves >= 1)
                &&& e.code == ErrorCode::InvalidConfig
                &&& e.message@ == "each cylinder needs at least one intake and one exhaust valve"@
            },
        },
{
    require(
        intake_valves >= 1 && exhaust_valves >= 1,
        "each cylinder needs at least one intake and one exhaust valve",
    )
}

/// The injector nozzle needs at least one hole.
pub fn check_nozzle_hole_count(holes: u32) -> (result: Result<(), SimError>)
    ensures
        match result {
            Ok(()) => holes >= 1,
            Err(e) => {
                &&& holes == 0
                &&& e.code == ErrorCode::InvalidConfig
                &&& e.message@ == "injection.nozzle_hole_count must be at least 1"@
            },
        },
{
    require(holes >= 1, "injection.nozzle_hole_count must be at least 1")
}

/// A batch must be allowed at least one step.
pub fn check_max_steps_per_batch(max_steps: u32) -> (result: Result<(), SimError>)
    ensures
        match result {
            Ok(()) => max_steps >= 1,
            Err(e) => {
                &&& max_steps == 0
                &&& e.code == ErrorCode::InvalidConfig
                &&& e.message@ == "solver.max_steps_per_batch must be at least 1"@
            },
        },
{
    require(max_steps >= 1, "solver.max_steps_per_batch must be at least 1")
}

/// A configuration must cite at least one source record.
pub fn check_sources_present(sources: &Vec<SourceRecord>) -> (result: Result<(), SimError>)
    ensures
        match result {
            Ok(()) => sources@.len() >= 1,
            Err(e) => {
                &&& sources@.len() == 0
                &&& e.code == ErrorCode::InvalidConfig
                &&& e.message@ == "at least one source record is required"@
            },
        },
{
    require(sources.len() >= 1, "at least one source record is required")
}

/// The message for a cylinder count outside the supported range.
pub open spec fn cylinder_count_message(cylinders: nat) -> Seq<char> {
    "geometry.cylinders must be 1..=12, got "@ + decimal(cylinders)
}

/// The cylinder count must lie in `1..=MAX_CYLINDERS`.
pub fn check_cylinder_count(cylinders: usize) -> (result: Result<(), SimError>)
    ensures
        match result {
            Ok(()) => 1 <= cylinders <= MAX_CYLINDERS,
            Err(e) => {
                &&& !(1 <= cylinders <= MAX_CYLINDERS)
                &&& e.code == ErrorCode::InvalidConfig
                &&& e.message@ == cylinder_count_message(cylinders as nat)
            },
        },
{
    if 1 <= cylinders && cylinders <= MAX_CYLINDERS {
        return Ok(());
    }
    let mut message = String::from_str("geometry.cylinders must be 1..=12, got ");
    let found = decimal_string(cylinders as u64);
    message.append(found.as_str());
    Err(SimError { code: ErrorCode::InvalidConfig, message })
}

/// `order` lists every cylinder number `1..=cylinders` exactly once, and there
/// is at least one cylinder.
pub open spec fn is_firing_order(order: Seq<usize>, cylinders: nat) -> bool {
    &&& cylinders >= 1
    &&& order.len() == cylinders
    &&& forall|i: int| 0 <= i < order.len() ==> 1 <= #[trigger] order[i] <= cylinders
    &&& order.no_duplicates()
}

/// The message for a firing order of the wrong length.
pub open spec fn firing_length_message(cylinders: nat, listed: nat) -> Seq<char> {
    "geometry.firing_order must list "@ + decimal(cylinders) + " cylinders, got "@ + decimal(
        listed,
    )
}

/// Check that the firing order is a permutation of `1..=cylinders`, so that
/// phase offsets come from data rather than being hard-coded per engine.
pub fn check_firing_order(cylinders: usize, order: &Vec<usize>) -> (result: Result<(), SimError>)
    ensures
        match result {
            Ok(()) => is_firing_order(order@, cylinders as nat),
            Err(e) => {
                &&& !is_firing_order(order@, cylinders as nat)
                &&& e.code == ErrorCode::InvalidConfig
                &&& order@.len() != cylinders ==> e.message@ == firing_length_message(
                    cylinders as nat,
                    order@.len(),
                )
                &&& order@.len() == cylinders ==> e.message@
                    == "geometry.firing_order must be a permutation of 1..=cylinders"@
            },
        },
{
    if order.len() != cylinders {
        let mut message = String::from_str("geometry.firing_order must list ");
        let wanted = decimal_string(cylinders as u64);
        message.append(wanted.as_str());
        message.append(" cylinders, got ");
        let found = decimal_string(order.len() as u64);
        message.append(found.as_str());
        return Err(SimError { code: ErrorCode::InvalidConfig, message });
    }
    if cylinders == 0 {
        return Err(
            SimError::invalid_config(
                "geometry.firing_order must be a permutation of 1..=cylinders",
            ),
        );
    }
    // seen[c] records whether cylinder number c has appeared yet.
    let mut seen: Vec<bool> = Vec::new();
    while seen.len() <= cylinders
        invariant
            seen@.len() <= cylinders + 1,
            forall|c: int| 0 <= c < seen@.len() ==> !#[trigger] seen@[c],
        decreases cylinders + 1 - seen@.len(),
    {
        seen.push(false);
    }
    let n = order.len();
    let mut i: usize = 0;
    while i < n
        invariant
            n == order@.len(),
            n == cylinders,
            cylinders >= 1,
            seen@.len() == cylinders + 1,
            i <= n,
            forall|j: int| 0 <= j < i ==> 1 <= #[trigger] order@[j] <= cylinders,
            forall|j: int, k: int| 0 <= j < k < i ==> order@[j] != order@[k],
            forall|c: int|
                0 <= c <= cylinders ==> (#[trigger] seen@[c] <==> exists|j: int|
                    0 <= j < i && order@[j] == c),
        decreases n - i,
    {
        let c = order[i];
        if c < 1 || c > cylinders {
            assert(!(1 <= order@[i as int] <= cylinders));
            assert(!is_firing_order(order@, cylinders as nat));
            return Err(
                SimError::invalid_config(
                    "geometry.firing_order must be a permutation of 1..=cylinders",
                ),
            );
        }
        if seen[c] {
            proof {
                let j = choose|j: int| 0 <= j < i && order@[j] == c;
                assert(order@[j] == order@[i as int]);
                assert(!order@.no_duplicates());
            }
            return Err(
                SimError::invalid_config(
                    "geometry.firing_order must be a permutation of 1..=cylinders",
                ),
            );
        }
        seen.set(c, true);
        i = i + 1;
    }
    Ok(())
}

/// Every cylinder number `1..=cylinders` appears somewhere in a firing order.
pub proof fn lemma_firing_order_covers(order: Seq<usize>, cylinders: nat, c: nat)
    requires
        is_firing_order(order, cylinders),
        1 <= c <= cylinders,
    ensures
        exists|p: int| 0 <= p < order.len() && order[p] == c,
{
    let ints = order.map_values(|v: usize| v as int);
    assert(ints.no_duplicates());
    ints.unique_seq_to_set();
    let range = vstd::set_lib::set_int_range(1, cylinders as int + 1);
    vstd::set_lib::lemma_int_range(1, cylinders as int + 1);
    assert forall|v: int| ints.to_set().contains(v) implies range.contains(v) by {
        let k = choose|k: int| 0 <= k < ints.len() && ints[k] == v;
        assert(ints[k] == order[k] as int);
    }
    vstd::seq_lib::seq_to_set_is_finite(ints);
    vstd::set_lib::lemma_subset_equality(ints.to_set(), range);
    assert(range.contains(c as int));
    assert(ints.to_set().contains(c as int));
    let k = choose|k: int| 0 <= k < ints.len() && ints[k] == c as int;
    assert(order[k] == c);
}

/// For a valid firing order, where each cylinder comes in the firing sequence:
/// `positions[c - 1]` is the 0-based position at which cylinder number `c` fires.
///
/// Cylinder `k` fires `positions[k]` firing intervals after cylinder 1's
/// firing order slot, so this is what the phase offsets are built from.
pub fn firing_positions(order: &Vec<usize>) -> (positions: Vec<usize>)
    requires
        is_firing_order(order@, order@.len()),
    ensures
        positions@.len() == order@.len(),
        forall|p: int| 0 <= p < order@.len() ==> positions@[order@[p] - 1] == p,
        forall|c: int| 0 <= c < positions@.len() ==> order@[#[trigger] positions@[c] as int] == c + 1,
        forall|c: int| 0 <= c < positions@.len() ==> #[trigger] positions@[c] < order@.len(),
        positions@.no_duplicates(),
{
    let n = order.len();
    let mut positions: Vec<usize> = Vec::new();
    while positions.len() < n
        invariant
            positions@.len() <= n,
            n >= 1,
            forall|c: int| 0 <= c < positions@.len() ==> #[trigger] positions@[c] < n,
        decreases n - positions@.len(),
    {
        positions.push(0);
    }
    let mut p: usize = 0;
    while p < n
        invariant
            n == order@.len(),
            is_firing_order(order@, n as nat),
            positions@.len() == n,
            p <= n,
            forall|q: int| 0 <= q < p ==> positions@[order@[q] - 1] == q,
            forall|c: int| 0 <= c < n ==> #[trigger] positions@[c] < n,
        decreases n - p,
    {
        let c = order[p];
        positions.set(c - 1, p);
        proof {
            assert forall|q: int| 0 <= q < p + 1 implies positions@[order@[q] - 1] == q by {
                if q < p {
                    assert(order@[q] != order@[p as int]);
                }
            }
        }
        p = p + 1;
    }
    proof {
        assert forall|c: int| 0 <= c < positions@.len() implies order@[
            #[trigger] positions@[c] as int] == c + 1 by {
            lemma_firing_order_covers(order@, n as nat, (c + 1) as nat);
            let q = choose|q: int| 0 <= q < order@.len() && order@[q] == c + 1;
            assert(positions@[order@[q] - 1] == q);
        }
        assert forall|a: int, b: int|
            0 <= a < positions@.len() && 0 <= b < positions@.len() && a != b implies positions@[a]
            != positions@[b] by {
            assert(order@[positions@[a] as int] == a + 1);
            assert(order@[positions@[b] as int] == b + 1);
        }
    }
    positions
}

} // verus!
