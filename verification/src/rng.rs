//! A small explicitly seeded PRNG.
//!
//! Any randomness in the simulation must be seeded explicitly and stepping must
//! stay deterministic, so the generator is carried in simulation state and
//! reset from the reset seed.
//!
//! PCG-XSH-RR 64/32. No global state, no allocation.

use vstd::prelude::*;

verus! {

/// The linear congruential multiplier.
pub const MULTIPLIER: u64 = 6_364_136_223_846_793_005;

/// The stream constant every generator is built with; the increment is this
/// shifted left by one with the low bit set.
pub const DEFAULT_INCREMENT: u64 = 1_442_695_040_888_963_407;

/// `2^64`, the modulus of the state arithmetic.
pub open spec fn state_modulus() -> int {
    0x1_0000_0000_0000_0000
}

/// The increment every generator uses: odd, so the state walks its full period.
pub open spec fn stream_increment() -> u64 {
    2_885_390_081_777_926_815
}

/// One step of the underlying linear congruential generator.
pub open spec fn lcg_next(state: u64, increment: u64) -> u64 {
    ((state as int * MULTIPLIER as int + increment as int) % state_modulus()) as u64
}

/// Rotate a 32-bit word right by `r` places, `r < 32`.
pub open spec fn rotate_right_32(x: u32, r: u32) -> u32 {
    if r == 0 {
        x
    } else {
        (x >> r) | (x << ((32 - r) as u32))
    }
}

/// The output permutation: xorshift the high bits down, then rotate by the top
/// five bits of the old state.
pub open spec fn pcg_output(old: u64) -> u32 {
    rotate_right_32((((old >> 18u64) ^ old) >> 27u64) as u32, (old >> 59u64) as u32)
}

/// The state a generator seeded with `seed` starts from.
pub open spec fn seeded_state(seed: u64) -> u64 {
    let first = lcg_next(0, stream_increment());
    lcg_next(((first as int + seed as int) % state_modulus()) as u64, stream_increment())
}

/// PCG-XSH-RR 64/32 state.
#[derive(Clone, Copy, Debug, PartialEq, Eq, Structural)]
pub struct Pcg32 {
    state: u64,
    increment: u64,
}

impl View for Pcg32 {
    /// The generator as (state, increment).
    type V = (u64, u64);

    closed spec fn view(&self) -> (u64, u64) {
        (self.state, self.increment)
    }
}

/// `x * MULTIPLIER + increment`, wrapping, equals the LCG step.
proof fn lemma_wrapping_step(x: u64, increment: u64)
    ensures
        x.wrapping_mul(MULTIPLIER).wrapping_add(increment) == lcg_next(x, increment),
{
    let m = state_modulus();
    let a = (x as int * MULTIPLIER as int) % m;
    vstd::arithmetic::div_mod::lemma_mod_bound(x as int * MULTIPLIER as int, m);
    vstd::arithmetic::div_mod::lemma_add_mod_noop(
        x as int * MULTIPLIER as int,
        increment as int,
        m,
    );
    vstd::arithmetic::div_mod::lemma_small_mod(increment as nat, m as nat);
    if a + increment < m {
        vstd::arithmetic::div_mod::lemma_small_mod((a + increment) as nat, m as nat);
    } else {
        lemma_mod_wrap_once(a + increment, m);
    }
}

/// A value between one and two moduli wraps once.
proof fn lemma_mod_wrap_once(v: int, m: int)
    requires
        0 < m <= v < 2 * m,
    ensures
        v % m == v - m,
{
    vstd::arithmetic::div_mod::lemma_mod_sub_multiples_vanish(v, m);
    vstd::arithmetic::div_mod::lemma_small_mod((v - m) as nat, m as nat);
}

impl Pcg32 {
    /// The increment is odd for every generator this module builds.
    pub closed spec fn wf(&self) -> bool {
        self.increment == stream_increment()
    }

    /// Deterministically seed the generator.
    pub fn seed_from(seed: u64) -> (rng: Self)
        ensures
            rng.wf(),
            rng@ == (seeded_state(seed), stream_increment()),
    {
        let mut rng = Pcg32 { state: 0, increment: (DEFAULT_INCREMENT << 1u32) | 1 };
        assert((DEFAULT_INCREMENT << 1u32) | 1 == 2_885_390_081_777_926_815u64) by (bit_vector);
        rng.next_u32();
        let ghost first = rng.state;
        rng.state = rng.state.wrapping_add(seed);
        assert(rng.state == ((first as int + seed as int) % state_modulus()) as u64) by {
            if first as int + seed as int >= state_modulus() {
                lemma_mod_wrap_once(first as int + seed as int, state_modulus());
            } else {
                vstd::arithmetic::div_mod::lemma_small_mod(
                    (first as int + seed as int) as nat,
                    state_modulus() as nat,
                );
            }
        }
        rng.next_u32();
        rng
    }

    /// Advance the state one step and return the permuted output of the old state.
    pub fn next_u32(&mut self) -> (out: u32)
        ensures
            final(self)@ == (lcg_next(old(self)@.0, old(self)@.1), old(self)@.1),
            out == pcg_output(old(self)@.0),
            old(self).wf() ==> final(self).wf(),
    {
        let old = self.state;
        proof {
            lemma_wrapping_step(old, self.increment);
        }
        self.state = old.wrapping_mul(MULTIPLIER).wrapping_add(self.increment);
        let xorshifted = (((old >> 18u64) ^ old) >> 27u64) as u32;
        let rot = (old >> 59u64) as u32;
        assert(rot < 32) by (bit_vector)
            requires
                rot == (old >> 59u64) as u32,
        ;
        if rot == 0 {
            xorshifted
        } else {
            (xorshifted >> rot) | (xorshifted << (32 - rot))
        }
    }
}

} // verus!
