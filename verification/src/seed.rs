//! Seed derivation: eight entropy bytes become the 64-bit simulation seed.
//!
//! The bytes are read little-endian.  A supplied byte sequence of any other
//! length is never an error: the fixed fallback pattern takes its place, so
//! a failed entropy read degrades to a deterministic seed instead of
//! aborting generation.

use vstd::prelude::*;

verus! {

/// The fixed byte pattern that stands in for the seed bytes whenever the
/// supplied sequence is not exactly eight bytes long.
pub open spec fn fallback_seed_bytes() -> Seq<u8> {
    seq![1u8, 2u8, 3u8, 4u8, 5u8, 6u8, 7u8, 8u8]
}

/// The value of eight bytes read as one little-endian 64-bit integer.
pub open spec fn le_u64_of(s: Seq<u8>) -> int
    recommends
        s.len() == 8,
{
    s[0] + s[1] * 0x100 + s[2] * 0x1_0000 + s[3] * 0x100_0000 + s[4] * 0x1_0000_0000 + s[5]
        * 0x100_0000_0000 + s[6] * 0x1_0000_0000_0000 + s[7] * 0x100_0000_0000_0000
}

/// Decodes the simulation seed from entropy bytes: exactly eight bytes are
/// read little-endian; any other length falls back to the fixed pattern.
pub fn seed_from_bytes(seed_bytes: &[u8]) -> (seed: u64)
    ensures
        seed_bytes@.len() == 8 ==> seed == le_u64_of(seed_bytes@),
        seed_bytes@.len() != 8 ==> seed == le_u64_of(fallback_seed_bytes()),
{
    if seed_bytes.len() == 8 {
        (seed_bytes[0] as u64) + (seed_bytes[1] as u64) * 0x100 + (seed_bytes[2] as u64)
            * 0x1_0000 + (seed_bytes[3] as u64) * 0x100_0000 + (seed_bytes[4] as u64)
            * 0x1_0000_0000 + (seed_bytes[5] as u64) * 0x100_0000_0000 + (seed_bytes[6] as u64)
            * 0x1_0000_0000_0000 + (seed_bytes[7] as u64) * 0x100_0000_0000_0000
    } else {
        0x0807_0605_0403_0201
    }
}

} // verus!
