use vstd::prelude::*;

verus! {

/// Multiplier applied to the seed before hashing it.
pub const SEED_STEP: u32 = 196513497;

/// Seed used when the wall clock cannot give one.
pub const FALLBACK_SEED: u32 = 34123123;

/// Integer hash: xor with a constant, then three rounds of
/// multiply-and-fold with the golden-ratio constant.
pub open spec fn hashed(s: u32) -> u32 {
    let a = (s ^ 2747636419u32).wrapping_mul(2654435769u32);
    let b = (a ^ (a >> 16u32)).wrapping_mul(2654435769u32);
    (b ^ (b >> 16u32)).wrapping_mul(2654435769u32)
}

/// The per-frame mixing step of the pseudo-random seed.
pub open spec fn mix(s: u32) -> u32 {
    hashed(s.wrapping_mul(SEED_STEP))
}

/// The seed after `n` frame boundaries, starting from `s`.
pub open spec fn seed_after(s: u32, n: nat) -> u32
    decreases n,
{
    if n == 0 {
        s
    } else {
        mix(seed_after(s, (n - 1) as nat))
    }
}

/// Hashes a 32-bit state.
pub fn khash(s: u32) -> (r: u32)
    ensures
        r == hashed(s),
{
    let a = (s ^ 2747636419u32).wrapping_mul(2654435769u32);
    let b = (a ^ (a >> 16u32)).wrapping_mul(2654435769u32);
    (b ^ (b >> 16u32)).wrapping_mul(2654435769u32)
}

/// The seed of the next frame.
pub fn next_seed(s: u32) -> (r: u32)
    ensures
        r == mix(s),
{
    khash(s.wrapping_mul(SEED_STEP))
}

/// The first seed: the sub-second nanoseconds of the wall clock when it could
/// be read, else a fixed constant.
pub fn initial_seed(subsec_nanos: Option<u32>) -> (r: u32)
    ensures
        r == match subsec_nanos {
            Some(n) => n,
            None => FALLBACK_SEED,
        },
{
    match subsec_nanos {
        Some(n) => n,
        None => FALLBACK_SEED,
    }
}

/// The seed sequence depends on the starting seed alone: each step applies
/// the fixed mixing function to the previous seed, so two runs from the same
/// seed agree at every frame.
pub proof fn lemma_seed_sequence(s: u32, t: u32, n: nat)
    requires
        s == t,
    ensures
        seed_after(s, n + 1) == mix(seed_after(s, n)),
        seed_after(s, n) == seed_after(t, n),
{
}

} // verus!
