//! Reduction of the serialized entropy to one 256-bit seed digest.
//!
//! The digest function itself is the outside crate's work; its result is named
//! by the uninterpreted function [`blake3_of`], and everything this crate
//! proves about digests goes through that name.

use crate::entropy::{serialize_entropy, EntropyInputs};
use vstd::prelude::*;

verus! {

/// The 32-byte BLAKE3 digest of a byte sequence. The digest depends on the
/// input bytes alone; nothing here states what it is on given bytes.
pub uninterp spec fn blake3_of(input: Seq<u8>) -> Seq<u8>;

/// Relies on blake3::hash: a pure function of the input bytes that always
/// returns a 32-byte digest.
#[verifier::external_body]
pub(crate) fn blake3_hash(input: &[u8]) -> (r: Vec<u8>)
    ensures
        r@ == blake3_of(input@),
        r@.len() == 32,
{
    blake3::hash(input).as_bytes().to_vec()
}

/// The seed digest of one invocation: the digest of the serialized entropy.
pub open spec fn seed_digest_of(inputs: EntropyInputs) -> Seq<u8> {
    blake3_of(inputs.serialized())
}

/// Computes the seed digest of one invocation. It is computed exactly once per
/// invocation and reused, unchanged, by every sampling slot.
pub fn seed_digest(inputs: &EntropyInputs) -> (r: Vec<u8>)
    ensures
        r@ == seed_digest_of(*inputs),
        r@.len() == 32,
{
    let data = serialize_entropy(inputs);
    blake3_hash(data.as_slice())
}

} // verus!
