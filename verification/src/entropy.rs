//! The entropy inputs of one invocation and their deterministic serialization.
//!
//! Field order is part of the protocol: the identifier, the requested count,
//! the slot number, the timestamp, the two 32-byte identities and the optional
//! reference string are concatenated in that fixed order, numeric fields as
//! fixed-width little-endian bytes, byte fields raw.

use vstd::bytes::spec_u64_to_le_bytes;
use vstd::prelude::*;

verus! {

/// Longest accepted identifier, in bytes.
pub const MAX_ID_BYTES: usize = 16;

/// Largest accepted requested count.
pub const MAX_COUNT: u8 = 50;

/// The entropy fields of one invocation, read once from the caller and the
/// environment, then immutable for the rest of the call.
pub struct EntropyInputs {
    /// Caller-supplied identifier (order id), as raw text bytes.
    pub oid: Vec<u8>,
    /// Requested number of output samples.
    pub count: u8,
    /// Monotonically assigned slot/sequence number from the environment clock.
    pub slot: u64,
    /// Signed timestamp from the environment clock.
    pub timestamp: i64,
    /// 32-byte identity of the player account.
    pub player: [u8; 32],
    /// 32-byte identity of the signer account.
    pub signer: [u8; 32],
    /// Caller-supplied recent external reference, as raw text bytes.
    pub latest: Vec<u8>,
}

impl EntropyInputs {
    /// The bounds the batch controller enforces before any hashing.
    pub open spec fn valid(self) -> bool {
        &&& self.oid@.len() <= MAX_ID_BYTES
        &&& self.count <= MAX_COUNT
    }

    /// The serialized entropy byte stream: every field in protocol order.
    pub open spec fn serialized(self) -> Seq<u8> {
        self.oid@ + seq![self.count] + spec_u64_to_le_bytes(self.slot)
            + spec_u64_to_le_bytes(timestamp_bits(self.timestamp)) + self.player@ + self.signer@
            + self.latest@
    }
}

/// The two's-complement 64-bit pattern of a signed timestamp, the value whose
/// little-endian bytes encode the timestamp.
pub open spec fn timestamp_bits(t: i64) -> u64 {
    if t >= 0 {
        t as u64
    } else {
        (t + 0x1_0000_0000_0000_0000) as u64
    }
}

/// Computes the two's-complement bit pattern of a signed timestamp.
pub fn timestamp_to_bits(t: i64) -> (r: u64)
    ensures
        r == timestamp_bits(t),
{
    if t >= 0 {
        t as u64
    } else if t == i64::MIN {
        0x8000_0000_0000_0000u64
    } else {
        let m: u64 = (-t) as u64;
        (u64::MAX - m) + 1
    }
}

/// Appends every byte of `src` to `dst`, in order.
pub fn append_bytes(dst: &mut Vec<u8>, src: &[u8])
    ensures
        final(dst)@ == old(dst)@ + src@,
{
    let ghost dst0: Seq<u8> = dst@;
    let mut k: usize = 0;
    while k < src.len()
        invariant
            k <= src@.len(),
            dst@ == dst0 + src@.take(k as int),
        decreases src@.len() - k,
    {
        dst.push(src[k]);
        proof {
            assert(src@.take(k + 1) =~= src@.take(k as int).push(src@[k as int]));
        }
        k = k + 1;
    }
    proof {
        assert(src@.take(src@.len() as int) =~= src@);
    }
}

/// Serializes the entropy fields into one byte stream, preserving the fixed
/// protocol field order.
pub fn serialize_entropy(inputs: &EntropyInputs) -> (r: Vec<u8>)
    ensures
        r@ == inputs.serialized(),
{
    let mut data: Vec<u8> = Vec::new();
    append_bytes(&mut data, inputs.oid.as_slice());
    data.push(inputs.count);
    let slot_bytes = vstd::bytes::u64_to_le_bytes(inputs.slot);
    append_bytes(&mut data, slot_bytes.as_slice());
    let ts_bytes = vstd::bytes::u64_to_le_bytes(timestamp_to_bits(inputs.timestamp));
    append_bytes(&mut data, ts_bytes.as_slice());
    append_bytes(&mut data, inputs.player.as_slice());
    append_bytes(&mut data, inputs.signer.as_slice());
    append_bytes(&mut data, inputs.latest.as_slice());
    proof {
        assert(data@ =~= inputs.serialized());
    }
    data
}

} // verus!
