//! Tests of the deterministic noise core.

use soundgen::noise::NOISE_INIT_SEED;
use soundgen::noise::noise_bit;
use soundgen::noise::noise_next_seed;

#[test]
fn noise_seed_update_exact() {
    // (123456789123456789 * 2862933555777941757 + 3037000493) mod 2^64.
    assert_eq!(noise_next_seed(NOISE_INIT_SEED), 4901716145624668910);
    assert_eq!(noise_next_seed(4901716145624668910), 13610267875838226531);
}

#[test]
fn noise_stream_deterministic() {
    let mut a = NOISE_INIT_SEED;
    let mut b = NOISE_INIT_SEED;
    let mut bits_a = Vec::new();
    let mut bits_b = Vec::new();
    for _ in 0..100 {
        for k in 0..64 {
            bits_a.push(noise_bit(a, k));
        }
        a = noise_next_seed(a);
    }
    for _ in 0..100 {
        for k in 0..64 {
            bits_b.push(noise_bit(b, k));
        }
        b = noise_next_seed(b);
    }
    assert_eq!(a, b);
    assert_eq!(bits_a, bits_b);
}

#[test]
fn noise_bit_extracts_seed_bits() {
    // 0b10101: bits 0, 2 and 4 are set.
    assert!(noise_bit(0b10101, 0));
    assert!(!noise_bit(0b10101, 1));
    assert!(noise_bit(0b10101, 2));
    assert!(!noise_bit(0b10101, 3));
    assert!(noise_bit(0b10101, 4));
    assert!(!noise_bit(0b10101, 63));
    assert!(noise_bit(1u64 << 63, 63));
}
