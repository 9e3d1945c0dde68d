//! Integer helpers for the offline spectral analysis of produced audio.

use vstd::prelude::*;

verus! {

/// `2^k`.
pub open spec fn pow2(k: nat) -> nat
    decreases k,
{
    if k == 0 {
        1
    } else {
        2 * pow2((k - 1) as nat)
    }
}

/// Largest power of two not exceeding `n`, and at least 1.
pub fn floor_pow2(n: usize) -> (p: usize)
    ensures
        exists|k: nat| p == pow2(k),
        n == 0 ==> p == 1,
        n >= 1 ==> p <= n && n < 2 * p,
{
    if n == 0 {
        proof {
            assert(1 == pow2(0));
        }
        return 1;
    }
    let mut p: usize = 1;
    let ghost mut k: nat = 0;
    while p <= n / 2
        invariant
            1 <= p <= n,
            p == pow2(k),
        decreases n - p,
    {
        p = p * 2;
        proof {
            k = k + 1;
        }
    }
    p
}

} // verus!
