//! Per-slot stream expansion: one fresh digest per output slot.
//!
//! Slot `i` hashes the concatenation of the seed digest bytes with the slot
//! counter encoded as a signed 32-bit little-endian integer. The counter acts
//! as a domain separator, and every slot uses a hash computation isolated from
//! prior slots. The raw candidate of a slot is the first 8 bytes of its
//! digest, read as a little-endian unsigned 64-bit integer.

use crate::entropy::append_bytes;
use crate::hashing::{blake3_hash, blake3_of};
use vstd::bytes::{spec_u32_to_le_bytes, spec_u64_from_le_bytes};
use vstd::prelude::*;

verus! {

/// The two's-complement 32-bit pattern of a signed slot counter, the value
/// whose little-endian bytes are hashed after the seed digest.
pub open spec fn counter_bits(counter: i32) -> u32 {
    if counter >= 0 {
        counter as u32
    } else {
        (counter + 0x1_0000_0000) as u32
    }
}

/// The fresh digest of one slot: the digest of the seed digest followed by the
/// slot counter's little-endian bytes.
pub open spec fn slot_digest_of(seed: Seq<u8>, counter: i32) -> Seq<u8> {
    blake3_of(seed + spec_u32_to_le_bytes(counter_bits(counter)))
}

/// The raw candidate of one slot: the first 8 bytes of the slot digest,
/// little-endian.
pub open spec fn raw_candidate_of(seed: Seq<u8>, counter: i32) -> u64 {
    spec_u64_from_le_bytes(slot_digest_of(seed, counter).take(8))
}

/// Computes the two's-complement bit pattern of a signed slot counter.
pub fn counter_to_bits(counter: i32) -> (r: u32)
    ensures
        r == counter_bits(counter),
{
    if counter >= 0 {
        counter as u32
    } else if counter == i32::MIN {
        0x8000_0000u32
    } else {
        let m: u32 = (-counter) as u32;
        (u32::MAX - m) + 1
    }
}

/// Derives the raw candidate of one slot from the seed digest and the slot
/// counter, with a hash computation isolated from every other slot.
pub fn expand_slot(seed: &Vec<u8>, counter: i32) -> (r: u64)
    requires
        seed@.len() == 32,
    ensures
        r == raw_candidate_of(seed@, counter),
{
    let ctr_bytes = vstd::bytes::u32_to_le_bytes(counter_to_bits(counter));
    let mut data: Vec<u8> = Vec::new();
    append_bytes(&mut data, seed.as_slice());
    append_bytes(&mut data, ctr_bytes.as_slice());
    proof {
        assert(data@ =~= seed@ + spec_u32_to_le_bytes(counter_bits(counter)));
    }
    let digest = blake3_hash(data.as_slice());
    let first8 = vstd::slice::slice_subrange(digest.as_slice(), 0, 8);
    proof {
        assert(first8@ =~= slot_digest_of(seed@, counter).take(8));
    }
    vstd::bytes::u64_from_le_bytes(first8)
}

} // verus!
