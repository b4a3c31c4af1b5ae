//! Bias-free rejection sampling of raw 64-bit candidates into `[1, MAX_RANDOM]`.

use vstd::prelude::*;

verus! {

/// Upper end of the output range: every accepted sample lies in `[1, MAX_RANDOM]`.
pub const MAX_RANDOM: u64 = 100000;

/// Largest multiple of `MAX_RANDOM` that fits in 64 bits; raw candidates at or
/// above this bound are rejected so that the remainder operation is unbiased.
pub const MAX_SAFE: u64 = u64::MAX - u64::MAX % MAX_RANDOM;

/// What rejection sampling yields for a raw candidate: a value in
/// `[1, MAX_RANDOM]` when the candidate is below `MAX_SAFE`, nothing otherwise.
pub open spec fn sample_of(raw: u64) -> Option<u32> {
    if raw < MAX_SAFE {
        Some(((raw % MAX_RANDOM) + 1) as u32)
    } else {
        None
    }
}

/// The safe bound is an exact multiple of the range width and fits in 64 bits,
/// so reduction modulo `MAX_RANDOM` over `[0, MAX_SAFE)` is exactly uniform.
pub proof fn lemma_safe_bound_divisible()
    ensures
        MAX_SAFE % MAX_RANDOM == 0,
        MAX_SAFE <= u64::MAX,
{
    let x = u64::MAX as int;
    let m = MAX_RANDOM as int;
    vstd::arithmetic::div_mod::lemma_fundamental_div_mod(x, m);
    assert(x - x % m == m * (x / m));
    vstd::arithmetic::div_mod::lemma_mod_multiples_basic(x / m, m);
}

/// Candidates congruent modulo `MAX_RANDOM` that are both accepted map to the
/// same sample.
pub proof fn lemma_sampler_congruence(r1: u64, r2: u64)
    requires
        r1 < MAX_SAFE,
        r2 < MAX_SAFE,
        r1 % MAX_RANDOM == r2 % MAX_RANDOM,
    ensures
        sample_of(r1) == sample_of(r2),
{
}

/// Maps a raw candidate into `[1, MAX_RANDOM]` without modulo bias: accepts
/// exactly the candidates below `MAX_SAFE`, rejection is signalled as `None`.
pub fn rejection_sampling(raw: u64) -> (r: Option<u32>)
    ensures
        r == sample_of(raw),
        r is Some <==> raw < MAX_SAFE,
        r is Some ==> 1 <= r.unwrap() <= MAX_RANDOM,
{
    if raw < MAX_SAFE {
        Some((raw % MAX_RANDOM) as u32 + 1)
    } else {
        None
    }
}

} // verus!
