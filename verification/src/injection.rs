//! The APCRS injection variants.
//!
//! Fuel is injected, according to the injection variant, with or without
//! additional pressure amplification; the controller selects the variant from
//! the operating condition of the engine.

use vstd::prelude::*;

verus! {

/// Which injection variant the controller selects for an event.
#[derive(Clone, Copy, Debug, PartialEq, Eq, Structural)]
pub enum Variant {
    /// Rail pressure straight to the nozzle.
    Standard,
    /// Local pressure amplification at the injector.
    Amplified,
}

/// The wire string of each variant.
pub open spec fn variant_text(variant: Variant) -> Seq<char> {
    match variant {
        Variant::Standard => "standard"@,
        Variant::Amplified => "amplified"@,
    }
}

impl Variant {
    /// The lower-case wire string.
    pub fn as_str(self) -> (s: &'static str)
        ensures
            s@ == variant_text(self),
    {
        match self {
            Variant::Standard => "standard",
            Variant::Amplified => "amplified",
        }
    }

    /// The amplified variant is chosen exactly when the fuel quantity reaches
    /// the configured threshold.
    pub fn for_quantity(reaches_amplified_threshold: bool) -> (variant: Self)
        ensures
            variant == if reaches_amplified_threshold {
                Variant::Amplified
            } else {
                Variant::Standard
            },
    {
        if reaches_amplified_threshold {
            Variant::Amplified
        } else {
            Variant::Standard
        }
    }
}

/// Each variant's wire string is its name in lower case, so the two differ.
pub proof fn lemma_variant_text_injective(a: Variant, b: Variant)
    ensures
        variant_text(Variant::Standard) == "standard"@,
        variant_text(Variant::Amplified) == "amplified"@,
        variant_text(a) == variant_text(b) <==> a == b,
{
    reveal_strlit("standard");
    reveal_strlit("amplified");
    if variant_text(a) == variant_text(b) && a != b {
        assert(variant_text(a)[0] == variant_text(b)[0]);
    }
}

} // verus!
