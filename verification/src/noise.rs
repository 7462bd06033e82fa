//! Pseudo-random payload bytes from a linear congruential generator.

use std::time::{Duration, SystemTime, SystemTimeError, UNIX_EPOCH};
use vstd::arithmetic::div_mod::lemma_add_mod_noop;
use vstd::prelude::*;

verus! {

/// Multiplier of the recurrence.
pub const LCG_MULTIPLIER: u64 = 1103515245;

/// Increment of the recurrence.
pub const LCG_INCREMENT: u64 = 12345;

/// One step of the recurrence, modulo 2^64.
pub open spec fn lcg_next(state: u64) -> u64 {
    ((state * 1103515245 + 12345) % 0x1_0000_0000_0000_0000) as u64
}

/// The generator's state after `n` steps from `seed`.
pub open spec fn lcg_state(seed: u64, n: nat) -> u64
    decreases n,
{
    if n == 0 {
        seed
    } else {
        lcg_next(lcg_state(seed, (n - 1) as nat))
    }
}

/// The byte that a state gives out: its bits 16 to 23.
pub open spec fn noise_byte(state: u64) -> u8 {
    ((state / 0x1_0000) % 0x100) as u8
}

/// The first `len` bytes that `seed` generates. Byte `i` comes from the state
/// after `i + 1` steps.
pub open spec fn noise_seq(seed: u64, len: nat) -> Seq<u8> {
    Seq::new(len, |i: int| noise_byte(lcg_state(seed, (i + 1) as nat)))
}

/// The seed that a clock reading gives: its low 64 bits.
pub open spec fn seed_of_nanos(nanos: u128) -> u64 {
    (nanos % 0x1_0000_0000_0000_0000) as u64
}

/// Advances the generator by one step.
pub fn lcg_step(state: u64) -> (next: u64)
    ensures
        next == lcg_next(state),
{
    let product = state.wrapping_mul(LCG_MULTIPLIER);
    let next = product.wrapping_add(LCG_INCREMENT);
    proof {
        let r: int = 0x1_0000_0000_0000_0000;
        let full: int = state * 1103515245;
        lemma_add_mod_noop(full, 12345, r);
    }
    next
}

/// Takes the output byte out of a state.
pub fn output_byte(state: u64) -> (byte: u8)
    ensures
        byte == noise_byte(state),
{
    let shifted: u64 = state >> 16;
    assert(shifted & 0xff == (state / 0x1_0000) % 0x100) by (bit_vector)
        requires
            shifted == state >> 16,
    ;
    (shifted & 0xff) as u8
}

/// Generates `length` bytes from `seed`.
pub fn noise_from_seed(seed: u64, length: usize) -> (noise: Vec<u8>)
    ensures
        noise@ == noise_seq(seed, length as nat),
{
    let mut noise: Vec<u8> = Vec::with_capacity(length);
    let mut state: u64 = seed;
    for i in 0..length
        invariant
            noise@.len() == i,
            state == lcg_state(seed, i as nat),
            forall|k: int| 0 <= k < i ==> noise@[k] == noise_byte(lcg_state(seed, (k + 1) as nat)),
    {
        state = lcg_step(state);
        noise.push(output_byte(state));
    }
    noise
}

/// A sequence of `len` bytes has `len` bytes, and none for `len == 0`.
pub proof fn noise_length(seed: u64, len: nat)
    ensures
        noise_seq(seed, len).len() == len,
        len == 0 ==> noise_seq(seed, len) == Seq::<u8>::empty(),
{
}

/// A shorter sequence from a seed is the start of every longer one from the
/// same seed.
pub proof fn noise_prefix(seed: u64, shorter: nat, longer: nat)
    requires
        shorter <= longer,
    ensures
        noise_seq(seed, longer).subrange(0, shorter as int) == noise_seq(seed, shorter),
{
}

/// The recurrence never maps two states to one: the multiplier is odd.
pub proof fn lcg_next_injective(a: u64, b: u64)
    requires
        lcg_next(a) == lcg_next(b),
    ensures
        a == b,
{
    assert(((a * 1103515245 + 12345) % 0x1_0000_0000_0000_0000) as u64 == ((b * 1103515245
        + 12345) % 0x1_0000_0000_0000_0000) as u64 ==> a == b) by (bit_vector);
}

/// Two different seeds never reach the same state after the same number of
/// steps.
pub proof fn lcg_state_injective(a: u64, b: u64, n: nat)
    requires
        lcg_state(a, n) == lcg_state(b, n),
    ensures
        a == b,
    decreases n,
{
    if n > 0 {
        lcg_next_injective(lcg_state(a, (n - 1) as nat), lcg_state(b, (n - 1) as nat));
        lcg_state_injective(a, b, (n - 1) as nat);
    }
}

/// `std::time::SystemTime`, a reading of the system clock. Nothing is known
/// of what a value holds.
#[verifier::external_type_specification]
#[verifier::external_body]
pub struct ExSystemTime(SystemTime);

/// `std::time::SystemTimeError`, which `SystemTime::duration_since` returns
/// when the reading lies before the reference point.
#[verifier::external_type_specification]
#[verifier::external_body]
pub struct ExSystemTimeError(SystemTimeError);

/// `SystemTime::now`: reads the system clock. The reading differs from call
/// to call, so nothing is stated of it.
pub assume_specification[ SystemTime::now ]() -> (now: SystemTime)
;

/// `Duration::as_nanos`: the whole span in nanoseconds. A `Duration` is
/// opaque here, so nothing is stated of the number.
pub assume_specification[ Duration::as_nanos ](span: &Duration) -> (nanos: u128)
;

/// Calls `SystemTime::duration_since` with `UNIX_EPOCH` as the earlier
/// instant. It fails when the clock stands before 1970; nothing more is
/// stated.
#[verifier::external_body]
fn since_unix_epoch(now: &SystemTime) -> (elapsed: Result<Duration, SystemTimeError>) {
    now.duration_since(UNIX_EPOCH)
}

/// Reduces a clock reading in nanoseconds to a seed by dropping all but the
/// low 64 bits.
pub fn seed_from_nanos(nanos: u128) -> (seed: u64)
    ensures
        seed == seed_of_nanos(nanos),
{
    let low: u128 = nanos & 0xffff_ffff_ffff_ffff;
    assert(low == nanos % 0x1_0000_0000_0000_0000 && low <= 0xffff_ffff_ffff_ffff) by (bit_vector)
        requires
            low == nanos & 0xffff_ffff_ffff_ffff,
    ;
    low as u64
}

/// Reads the wall clock and derives a seed from the reading. The reading
/// differs from call to call, so nothing is stated of the seed.
fn clock_seed() -> (seed: u64) {
    let now = SystemTime::now();
    let elapsed: Option<u128> = match since_unix_epoch(&now) {
        Ok(span) => Some(span.as_nanos()),
        Err(_) => None,
    };
    seed_from_elapsed(elapsed)
}

/// The seed that a clock reading gives: that of the nanoseconds elapsed since
/// the Unix epoch, or zero when there are none to count.
pub open spec fn seed_of_reading(elapsed: Option<u128>) -> u64 {
    match elapsed {
        Some(nanos) => seed_of_nanos(nanos),
        None => 0,
    }
}

/// The seed for a clock reading: the nanoseconds since the Unix epoch,
/// reduced to their low 64 bits, or zero when the clock stands before the
/// epoch and there is no such number.
pub fn seed_from_elapsed(elapsed: Option<u128>) -> (seed: u64)
    ensures
        seed == seed_of_reading(elapsed),
{
    match elapsed {
        Some(nanos) => seed_from_nanos(nanos),
        None => 0,
    }
}

/// Generates `length` bytes, seeded once from the wall clock. Which seed was
/// used is not known to the caller; the bytes are those that some seed
/// generates.
pub fn generate_random_noise(length: usize) -> (noise: Vec<u8>)
    ensures
        noise@.len() == length,
        exists|seed: u64| noise@ == noise_seq(seed, length as nat),
{
    let seed = clock_seed();
    noise_from_seed(seed, length)
}

} // verus!
