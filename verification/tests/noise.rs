use radio_sweep::noise::{
    generate_random_noise, lcg_step, noise_from_seed, output_byte, seed_from_elapsed,
    seed_from_nanos,
    LCG_INCREMENT, LCG_MULTIPLIER,
};
use std::time::SystemTime;

fn nanos_since_epoch() -> u64 {
    SystemTime::now().duration_since(SystemTime::UNIX_EPOCH).unwrap().as_nanos() as u64
}

#[test]
fn recurrence_constants() {
    assert_eq!(LCG_MULTIPLIER, 1103515245);
    assert_eq!(LCG_INCREMENT, 12345);
}

#[test]
fn step_follows_the_recurrence() {
    assert_eq!(lcg_step(0), 12345);
    assert_eq!(lcg_step(1), 1103527590);
    assert_eq!(lcg_step(1103527590), 1217759518843121895);
    assert_eq!(lcg_step(1217759518843121895), 15426401326682203284);
}

#[test]
fn step_wraps_at_two_to_the_64() {
    assert_eq!(lcg_step(u64::MAX), 12345u64.wrapping_sub(1103515245));
    assert_eq!(lcg_step(u64::MAX), u64::MAX.wrapping_mul(1103515245).wrapping_add(12345));
}

#[test]
fn output_byte_is_bits_16_to_23() {
    assert_eq!(output_byte(0), 0);
    assert_eq!(output_byte(0xffff), 0);
    assert_eq!(output_byte(0x1_0000), 1);
    assert_eq!(output_byte(0xab_cdef), 0xab);
    assert_eq!(output_byte(0x1234_5678_9abc_def0), 0xbc);
    assert_eq!(output_byte(1103527590), 198);
}

#[test]
fn noise_from_seed_one() {
    assert_eq!(noise_from_seed(1, 8), vec![198, 126, 129, 107, 75, 251, 226, 251]);
}

#[test]
fn noise_from_seed_zero() {
    assert_eq!(noise_from_seed(0, 4), vec![0, 220, 4, 101]);
}

#[test]
fn noise_from_largest_seed() {
    assert_eq!(noise_from_seed(u64::MAX, 4), vec![57, 57, 134, 94]);
}

#[test]
fn noise_from_a_clock_sized_seed() {
    assert_eq!(
        noise_from_seed(1_700_000_000_000_000_000, 8),
        vec![226, 22, 182, 47, 172, 249, 127, 135]
    );
}

#[test]
fn noise_payload_of_32_bytes() {
    assert_eq!(
        noise_from_seed(42, 32),
        vec![
            137, 137, 165, 117, 32, 69, 109, 132, 97, 129, 84, 18, 238, 212, 181, 48, 69, 11,
            183, 227, 153, 212, 142, 176, 110, 47, 119, 233, 247, 149, 113, 186
        ]
    );
}

#[test]
fn noise_has_the_length_asked_for() {
    for length in [0usize, 1, 2, 31, 32, 33, 255, 1000] {
        assert_eq!(noise_from_seed(99, length).len(), length);
        assert_eq!(generate_random_noise(length).len(), length);
    }
}

#[test]
fn noise_of_length_zero_is_empty() {
    assert!(noise_from_seed(5, 0).is_empty());
    assert!(generate_random_noise(0).is_empty());
}

#[test]
fn same_seed_gives_same_noise() {
    assert_eq!(noise_from_seed(123456789, 64), noise_from_seed(123456789, 64));
}

#[test]
fn shorter_noise_is_a_prefix_of_longer() {
    let long = noise_from_seed(77, 40);
    for length in 0..40usize {
        assert_eq!(noise_from_seed(77, length), long[..length].to_vec());
    }
}

#[test]
fn neighbouring_seeds_give_different_noise() {
    for seed in 0..200u64 {
        assert_ne!(noise_from_seed(seed, 32), noise_from_seed(seed + 1, 32));
    }
}

#[test]
fn different_seeds_step_to_different_states() {
    let mut seen = Vec::new();
    for seed in 0..500u64 {
        let next = lcg_step(seed);
        assert!(!seen.contains(&next));
        seen.push(next);
    }
}

#[test]
fn seed_keeps_the_low_64_bits() {
    assert_eq!(seed_from_nanos(0), 0);
    assert_eq!(seed_from_nanos(5), 5);
    assert_eq!(seed_from_nanos(u64::MAX as u128), u64::MAX);
    assert_eq!(seed_from_nanos((1u128 << 64) + 5), 5);
    assert_eq!(seed_from_nanos(u128::MAX), u64::MAX);
    assert_eq!(seed_from_nanos(1_700_000_000_123_456_789), 1_700_000_000_123_456_789);
}

#[test]
fn seed_of_a_clock_reading() {
    assert_eq!(seed_from_elapsed(None), 0);
    assert_eq!(seed_from_elapsed(Some(0)), 0);
    assert_eq!(seed_from_elapsed(Some(7)), 7);
    assert_eq!(seed_from_elapsed(Some(1_700_000_000_123_456_789)), 1_700_000_000_123_456_789);
    assert_eq!(seed_from_elapsed(Some((1u128 << 64) + 7)), 7);
    assert_eq!(seed_from_elapsed(Some(u128::MAX)), u64::MAX);
}

#[test]
fn noise_is_seeded_from_the_clock() {
    let before = nanos_since_epoch();
    let noise = generate_random_noise(32);
    let after = nanos_since_epoch();
    assert!(before <= after);
    assert!((before..=after).any(|seed| noise_from_seed(seed, 32) == noise));
}

#[test]
fn noise_generated_at_different_times_differs() {
    let first = generate_random_noise(32);
    let started = SystemTime::now();
    while SystemTime::now() == started {}
    let second = generate_random_noise(32);
    assert_eq!(first.len(), 32);
    assert_eq!(second.len(), 32);
    assert_ne!(first, second);
}
