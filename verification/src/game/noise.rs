//! Deterministic hashing for procedural choices.

use vstd::prelude::*;

verus! {

/// One mixing round.
pub open spec fn spec_mix(h: u32, word: u32) -> u32 {
    (h ^ word).wrapping_mul(0x45d_9f3bu32).wrapping_add(0x16f1_1fe5u32)
}

/// The hash of a column under a seed.
pub open spec fn spec_hash2d(x: i32, z: i32, seed: u32) -> u32 {
    let h = spec_mix(spec_mix(seed, x as u32), z as u32);
    h ^ (h >> 16)
}

fn mix(h: u32, word: u32) -> (mixed: u32)
    ensures
        mixed == spec_mix(h, word),
{
    (h ^ word).wrapping_mul(0x45d_9f3b).wrapping_add(0x16f1_1fe5)
}

/// The hash of a column under a seed.
pub fn hash2d(x: i32, z: i32, seed: u32) -> (hash: u32)
    ensures
        hash == spec_hash2d(x, z, seed),
{
    let h: u32 = mix(mix(seed, #[verifier::truncate] (x as u32)), #[verifier::truncate] (z as u32));
    h ^ (h >> 16)
}

} // verus!
