//! The deterministic integer core of the noise generator.
//!
//! A noise wave keeps a 64-bit seed and a fractional phase.  Each output
//! sample is one bit of the seed, selected by the whole part of the phase;
//! whenever the phase wraps past its period the seed is stepped by a fixed
//! linear-congruential rule.  Both operations are exact integer functions, so
//! the whole noise stream is determined by the initial seed and the sequence
//! of bit indices: the contracts below pin each result completely.

use vstd::prelude::*;

verus! {

/// The seed every noise generator starts from (and returns to on reset).
pub const NOISE_INIT_SEED: u64 = 123456789123456789;

/// The multiplier of the linear-congruential seed update.
pub const NOISE_MUL: u64 = 2862933555777941757;

/// The increment of the linear-congruential seed update.
pub const NOISE_ADD: u64 = 3037000493;

/// What one linear-congruential step yields: `(seed * NOISE_MUL + NOISE_ADD)`
/// in 64-bit wraparound arithmetic.
pub open spec fn next_seed(seed: u64) -> u64 {
    (((seed * NOISE_MUL) + NOISE_ADD) % 0x1_0000_0000_0000_0000) as u64
}

/// The bit of `seed` selected by `index`, as a boolean.
pub open spec fn seed_bit(seed: u64, index: u32) -> bool {
    (seed >> (index as u64)) & 1 != 0
}

/// Steps the noise seed once by the linear-congruential rule.  The result is
/// an exact function of the argument, so a noise stream replayed from the
/// same initial seed repeats sample for sample.
pub fn noise_next_seed(seed: u64) -> (r: u64)
    ensures
        r == next_seed(seed),
{
    let sw: u128 = seed as u128;
    proof {
        assert(sw * (NOISE_MUL as u128) <= 0xFFFF_FFFF_FFFF_FFFFu128 * (
        NOISE_MUL as u128)) by (nonlinear_arith)
            requires
                sw <= 0xFFFF_FFFF_FFFF_FFFFu128,
        ;
    }
    let wide: u128 = sw * (NOISE_MUL as u128) + (NOISE_ADD as u128);
    proof {
        vstd::arithmetic::div_mod::lemma_mod_bound(wide as int, 0x1_0000_0000_0000_0000);
    }
    (wide % 0x1_0000_0000_0000_0000u128) as u64
}

/// Extracts the output bit of the current noise sample: bit `index` of the
/// seed.  The caller maps `true` to amplitude `+1` and `false` to `-1`.
pub fn noise_bit(seed: u64, index: u32) -> (r: bool)
    requires
        index < 64,
    ensures
        r == seed_bit(seed, index),
{
    (seed >> index) & 1 != 0
}

} // verus!
