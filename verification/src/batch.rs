//! The per-slot sampling loop: input validation, slot counting, early exit.
//!
//! The controller validates the inputs before any hashing, computes the seed
//! digest exactly once, and then walks slots `1..=count`. Every attempt
//! advances the slot counter exactly once. The first rejected candidate stops
//! the loop immediately: a batch shorter than requested is the caller-visible
//! signal that a rejection occurred, not an error.

use crate::entropy::{EntropyInputs, MAX_COUNT, MAX_ID_BYTES};
use crate::expander::{expand_slot, raw_candidate_of};
use crate::hashing::{seed_digest, seed_digest_of};
use crate::sampler::{rejection_sampling, sample_of, MAX_RANDOM};
use vstd::prelude::*;

verus! {

/// An input bound violation, detected before any hashing.
#[derive(Clone, Copy, Debug, PartialEq, Eq, Structural)]
pub enum ValidationError {
    /// The identifier is longer than `MAX_ID_BYTES` bytes.
    IdentifierTooLong,
    /// The requested count is larger than `MAX_COUNT`.
    CountTooLarge,
}

/// The batch that rejection sampling yields from the first `n` raw candidates
/// of `raws`: accepted values in slot order, cut short at the first rejection.
pub open spec fn sampled_prefix(raws: Seq<u64>, n: int) -> Seq<u32>
    decreases n,
{
    if n <= 0 {
        Seq::empty()
    } else {
        let prev = sampled_prefix(raws, n - 1);
        if prev.len() < n - 1 {
            prev
        } else {
            match sample_of(raws[n - 1]) {
                Some(v) => prev.push(v),
                None => prev,
            }
        }
    }
}

/// The raw candidates of slots `1..=n` derived from a seed digest.
pub open spec fn raw_candidates(seed: Seq<u8>, n: int) -> Seq<u64> {
    Seq::new(n as nat, |k: int| raw_candidate_of(seed, (k + 1) as i32))
}

/// The batch one invocation yields from a seed digest and a requested count.
pub open spec fn batch_upto(seed: Seq<u8>, n: int) -> Seq<u32> {
    sampled_prefix(raw_candidates(seed, n), n)
}

/// A sampled batch is never longer than the number of candidates offered.
pub proof fn lemma_sampled_prefix_len(raws: Seq<u64>, n: int)
    requires
        0 <= n,
    ensures
        sampled_prefix(raws, n).len() <= n,
    decreases n,
{
    if n > 0 {
        lemma_sampled_prefix_len(raws, n - 1);
    }
}

/// Once a batch has fallen short of its slot index, offering further
/// candidates changes nothing: the loop has stopped for good.
pub proof fn lemma_sampled_prefix_stable(raws: Seq<u64>, j: int, m: int)
    requires
        0 <= j <= m,
        sampled_prefix(raws, j).len() < j,
    ensures
        sampled_prefix(raws, m) == sampled_prefix(raws, j),
    decreases m - j,
{
    if m > j {
        lemma_sampled_prefix_stable(raws, j, m - 1);
        lemma_sampled_prefix_len(raws, j);
    }
}

/// When every candidate is accepted, the batch is full: one value per slot.
pub proof fn lemma_sampled_prefix_complete(raws: Seq<u64>, n: int)
    requires
        0 <= n <= raws.len(),
        forall|i: int| 0 <= i < n ==> sample_of(#[trigger] raws[i]) is Some,
    ensures
        sampled_prefix(raws, n).len() == n,
    decreases n,
{
    if n > 0 {
        lemma_sampled_prefix_complete(raws, n - 1);
    }
}

/// When the first rejection sits at slot `j`, the batch holds exactly the
/// `j - 1` values accepted before it, however many slots were requested.
pub proof fn lemma_sampled_prefix_truncated(raws: Seq<u64>, n: int, j: int)
    requires
        1 <= j <= n <= raws.len(),
        sample_of(raws[j - 1]) is None,
        forall|i: int| 0 <= i < j - 1 ==> sample_of(#[trigger] raws[i]) is Some,
    ensures
        sampled_prefix(raws, n).len() == j - 1,
        sampled_prefix(raws, n) == sampled_prefix(raws, j - 1),
{
    lemma_sampled_prefix_complete(raws, j - 1);
    assert(sampled_prefix(raws, j) == sampled_prefix(raws, j - 1));
    lemma_sampled_prefix_stable(raws, j, n);
}

/// Every batch entry is the accepted sample of its own slot's candidate, and
/// lies in `[1, MAX_RANDOM]`.
pub proof fn lemma_sampled_prefix_values(raws: Seq<u64>, n: int)
    requires
        0 <= n <= raws.len(),
    ensures
        forall|k: int|
            #![trigger sampled_prefix(raws, n)[k]]
            #![trigger sample_of(raws[k])]
            0 <= k < sampled_prefix(raws, n).len() ==> {
                &&& sample_of(raws[k]) is Some
                &&& sampled_prefix(raws, n)[k] == sample_of(raws[k]).unwrap()
                &&& 1 <= sampled_prefix(raws, n)[k] <= MAX_RANDOM
            },
    decreases n,
{
    if n > 0 {
        lemma_sampled_prefix_values(raws, n - 1);
        lemma_sampled_prefix_len(raws, n - 1);
        let prev = sampled_prefix(raws, n - 1);
        let cur = sampled_prefix(raws, n);
        assert forall|k: int|
            #![trigger sampled_prefix(raws, n)[k]]
            #![trigger sample_of(raws[k])]
            0 <= k < cur.len() implies {
            &&& sample_of(raws[k]) is Some
            &&& cur[k] == sample_of(raws[k]).unwrap()
            &&& 1 <= cur[k] <= MAX_RANDOM
        } by {
            if k < prev.len() {
                assert(cur[k] == prev[k]);
                assert(prev[k] == sampled_prefix(raws, n - 1)[k]);
            }
        }
    }
}

/// A batch is never longer than the requested count.
pub proof fn lemma_batch_len(seed: Seq<u8>, n: int)
    requires
        0 <= n,
    ensures
        batch_upto(seed, n).len() <= n,
{
    lemma_sampled_prefix_len(raw_candidates(seed, n), n);
}

/// When every slot's candidate is accepted, the batch is full: exactly one
/// value per requested slot.
pub proof fn lemma_batch_complete(seed: Seq<u8>, n: int)
    requires
        0 <= n,
        forall|i: int| 1 <= i <= n ==> sample_of(#[trigger] raw_candidate_of(seed, i as i32)) is Some,
    ensures
        batch_upto(seed, n).len() == n,
{
    let raws = raw_candidates(seed, n);
    assert forall|k: int| 0 <= k < n implies sample_of(#[trigger] raws[k]) is Some by {
        assert(raws[k] == raw_candidate_of(seed, (k + 1) as i32));
    }
    lemma_sampled_prefix_complete(raws, n);
}

/// When the first rejected candidate sits at slot `j`, the batch holds
/// exactly the `j - 1` values accepted before it: the loop stops there and
/// never reaches a later slot.
pub proof fn lemma_batch_truncated(seed: Seq<u8>, n: int, j: int)
    requires
        1 <= j <= n,
        sample_of(raw_candidate_of(seed, j as i32)) is None,
        forall|i: int| 1 <= i < j ==> sample_of(#[trigger] raw_candidate_of(seed, i as i32)) is Some,
    ensures
        batch_upto(seed, n).len() == j - 1,
{
    let raws = raw_candidates(seed, n);
    assert forall|k: int| 0 <= k < j - 1 implies sample_of(#[trigger] raws[k]) is Some by {
        assert(raws[k] == raw_candidate_of(seed, (k + 1) as i32));
    }
    assert(raws[j - 1] == raw_candidate_of(seed, j as i32));
    lemma_sampled_prefix_truncated(raws, n, j);
}

/// The whole pipeline is a pure function of the entropy fields: inputs whose
/// fields hold the same values yield the same seed digest and, for every
/// requested count, the same batch.
pub proof fn lemma_deterministic(a: EntropyInputs, b: EntropyInputs)
    requires
        a.oid@ == b.oid@,
        a.count == b.count,
        a.slot == b.slot,
        a.timestamp == b.timestamp,
        a.player@ == b.player@,
        a.signer@ == b.signer@,
        a.latest@ == b.latest@,
    ensures
        a.serialized() == b.serialized(),
        seed_digest_of(a) == seed_digest_of(b),
        forall|n: int| #[trigger] batch_upto(seed_digest_of(a), n) == batch_upto(seed_digest_of(b), n),
{
    assert(a.serialized() =~= b.serialized());
}

/// Applies rejection sampling to a list of raw candidates in slot order,
/// stopping at the first rejection.
pub fn batch_from_candidates(raws: &Vec<u64>) -> (r: Vec<u32>)
    ensures
        r@ == sampled_prefix(raws@, raws@.len() as int),
        r@.len() <= raws@.len(),
{
    let mut arr: Vec<u32> = Vec::new();
    let n: usize = raws.len();
    let mut i: usize = 0;
    while i < n
        invariant_except_break
            i <= n,
            n == raws@.len(),
            arr@.len() == i,
            arr@ == sampled_prefix(raws@, i as int),
        ensures
            arr@ == sampled_prefix(raws@, n as int),
        decreases n - i,
    {
        i = i + 1;
        match rejection_sampling(raws[i - 1]) {
            Some(v) => {
                arr.push(v);
            },
            None => {
                proof {
                    lemma_sampled_prefix_stable(raws@, i as int, n as int);
                }
                break ;
            },
        }
    }
    proof {
        lemma_sampled_prefix_len(raws@, n as int);
    }
    arr
}

/// Validates the inputs, derives the seed digest once, and collects up to
/// `count` samples, one fresh digest per slot, stopping at the first
/// rejection. Succeeds exactly on valid inputs; a shorter-than-requested
/// batch signals that a rejection occurred.
pub fn generate_random(inputs: &EntropyInputs) -> (r: Result<Vec<u32>, ValidationError>)
    ensures
        r is Ok <==> inputs.valid(),
        inputs.oid@.len() > MAX_ID_BYTES ==> (r matches Err(e) && e == ValidationError::IdentifierTooLong),
        inputs.oid@.len() <= MAX_ID_BYTES && inputs.count > MAX_COUNT ==> (r matches Err(e) && e
            == ValidationError::CountTooLarge),
        r matches Ok(batch) ==> batch@ == batch_upto(seed_digest_of(*inputs), inputs.count as int),
        r matches Ok(batch) ==> batch@.len() <= inputs.count,
        r matches Ok(batch) ==> forall|k: int|
            0 <= k < batch@.len() ==> 1 <= #[trigger] batch@[k] <= MAX_RANDOM,
{
    if inputs.oid.len() > MAX_ID_BYTES {
        return Err(ValidationError::IdentifierTooLong);
    }
    if inputs.count > MAX_COUNT {
        return Err(ValidationError::CountTooLarge);
    }
    let seed = seed_digest(inputs);
    let count = inputs.count as usize;
    let ghost raws: Seq<u64> = raw_candidates(seed@, count as int);
    let mut arr: Vec<u32> = Vec::new();
    let mut iteration_count: i32 = 0;
    while arr.len() < count
        invariant_except_break
            seed@ == seed_digest_of(*inputs),
            seed@.len() == 32,
            count == inputs.count,
            count <= MAX_COUNT,
            raws == raw_candidates(seed@, count as int),
            0 <= iteration_count <= count,
            arr@.len() == iteration_count,
            arr@ == sampled_prefix(raws, iteration_count as int),
        ensures
            arr@ == sampled_prefix(raws, count as int),
        decreases count - iteration_count,
    {
        iteration_count = iteration_count + 1;
        let raw = expand_slot(&seed, iteration_count);
        proof {
            assert(raws[iteration_count - 1] == raw_candidate_of(seed@, iteration_count));
        }
        match rejection_sampling(raw) {
            Some(random_value) => {
                arr.push(random_value);
            },
            None => {
                proof {
                    lemma_sampled_prefix_stable(raws, iteration_count as int, count as int);
                }
                break ;
            },
        }
    }
    proof {
        lemma_sampled_prefix_len(raws, count as int);
        lemma_sampled_prefix_values(raws, count as int);
    }
    Ok(arr)
}

} // verus!
