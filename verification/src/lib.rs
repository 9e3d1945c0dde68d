//! The discrete logic of a deterministic diesel truck engine model.
//!
//! This crate holds catalog selection, the discrete configuration checks and
//! the provenance rules, the seeded generator, the audio sample ring, and the
//! discrete decisions of a simulation step: run state, step gating and the
//! fault latch, control checks, engine-brake staging, the starter relay,
//! cylinder phase and injection variant. Each function carries its contract.

use vstd::prelude::*;

pub mod analysis;
pub mod brake;
pub mod catalog;
pub mod config;
pub mod control;
pub mod cylinder;
pub mod error;
pub mod injection;
pub mod provenance;
pub mod ring;
pub mod rng;
pub mod snapshot;
pub mod starter;
pub mod text;

verus! {

/// Version of the public engine API. Bump on a breaking change.
pub const API_VERSION: u32 = 2;

/// Stable ID of the first built-in engine.
pub const BUILTIN_ENGINE_ID: &'static str = "mercedes-benz-om471-9-m3d-375kw";

} // verus!
