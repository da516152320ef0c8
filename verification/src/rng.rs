//! A tiny non-cryptographic generator (xorshift64*) for click jitter.

use vstd::prelude::*;

verus! {

/// The standard library's wall-clock instant.
#[verifier::external_type_specification]
#[verifier::external_body]
pub struct ExSystemTime(std::time::SystemTime);

/// The standard library's error for a clock set before the Unix epoch.
#[verifier::external_type_specification]
#[verifier::external_body]
pub struct ExSystemTimeError(std::time::SystemTimeError);

/// The state a generator seeded at `since_epoch_nanos` starts in: the low 64
/// bits of the nanoseconds since the Unix epoch (or a fixed constant when the
/// clock is before the epoch), with the lowest bit set.
pub open spec fn seed_state(since_epoch_nanos: Option<u128>) -> u64 {
    match since_epoch_nanos {
        Some(n) => (n as u64) | 1,
        None => 0x9E37_79B9_7F4A_7C15u64 | 1,
    }
}

/// One xorshift step.
pub open spec fn xorshift(x: u64) -> u64 {
    let a = x ^ (x << 13u64);
    let b = a ^ (a >> 7u64);
    b ^ (b << 17u64)
}

/// The output scrambling multiplier.
pub const MULTIPLIER: u64 = 0x2545_F491_4F6C_DD1D;

/// The output for state `x`: `x` times the multiplier, modulo 2^64.
pub open spec fn scramble(x: u64) -> u64 {
    ((x as nat * MULTIPLIER as nat) % 0x1_0000_0000_0000_0000nat) as u64
}

/// A xorshift64* generator. Its state is never zero (zero is the one state
/// xorshift cannot leave).
pub struct Rng {
    state: u64,
}

impl Rng {
    #[verifier::type_invariant]
    spec fn state_nonzero(self) -> bool {
        self.state != 0
    }

    /// The current state.
    pub closed spec fn state(self) -> u64 {
        self.state
    }

    /// A generator seeded from the wall clock.
    pub fn new() -> (r: Rng)
        ensures
            r.state() % 2 == 1,
    {
        let since = match since_unix_epoch(system_now()) {
            Ok(d) => Some(duration_as_nanos(&d)),
            Err(_) => None,
        };
        Rng::seeded(since)
    }

    /// A generator seeded with a clock reading: nanoseconds since the Unix
    /// epoch, or `None` when the clock is before it.
    pub fn seeded(since_epoch_nanos: Option<u128>) -> (r: Rng)
        ensures
            r.state() == seed_state(since_epoch_nanos),
            r.state() % 2 == 1,
    {
        let low: u64 = match since_epoch_nanos {
            Some(n) => n as u64,
            None => 0x9E37_79B9_7F4A_7C15,
        };
        let s = low | 1;
        assert(s % 2 == 1) by (bit_vector)
            requires
                s == low | 1,
        ;
        Rng { state: s }
    }

    /// Advances the state one xorshift step and returns the scrambled output.
    pub fn next_u64(&mut self) -> (r: u64)
        ensures
            final(self).state() == xorshift(old(self).state()),
            r == scramble(final(self).state()),
    {
        proof {
            use_type_invariant(&*self);
        }
        let mut x = self.state;
        x = x ^ (x << 13u64);
        x = x ^ (x >> 7u64);
        x = x ^ (x << 17u64);
        proof {
            lemma_xorshift_nonzero(self.state);
        }
        self.state = x;
        x.wrapping_mul(MULTIPLIER)
    }
}

/// xorshift maps every nonzero state to a nonzero state, so a generator
/// seeded with a nonzero state never gets stuck at zero.
pub proof fn lemma_xorshift_nonzero(x: u64)
    requires
        x != 0,
    ensures
        xorshift(x) != 0,
{
    let a = x ^ (x << 13u64);
    let b = a ^ (a >> 7u64);
    let c = b ^ (b << 17u64);
    assert(a != 0) by (bit_vector)
        requires
            x != 0,
            a == x ^ (x << 13u64),
    ;
    assert(b != 0) by (bit_vector)
        requires
            a != 0,
            b == a ^ (a >> 7u64),
    ;
    assert(c != 0) by (bit_vector)
        requires
            b != 0,
            c == b ^ (b << 17u64),
    ;
}

/// Seeding keeps the clock reading: apart from the lowest bit, which is set,
/// the state is the low 64 bits of the nanoseconds read, so two readings that
/// differ there seed different generators.
pub proof fn law_seed_follows_the_clock(n1: u128, n2: u128)
    ensures
        seed_state(Some(n1)) >> 1u64 == (n1 as u64) >> 1u64,
        seed_state(Some(n1)) % 2 == 1,
        (n1 as u64) >> 1u64 != (n2 as u64) >> 1u64 ==> seed_state(Some(n1)) != seed_state(
            Some(n2),
        ),
{
    let a = n1 as u64;
    let b = n2 as u64;
    assert(((a | 1u64) >> 1u64) == (a >> 1u64)) by (bit_vector);
    assert(((b | 1u64) >> 1u64) == (b >> 1u64)) by (bit_vector);
    assert((a | 1u64) % 2 == 1) by (bit_vector);
}

/// Calls `std::time::SystemTime::now`; the result depends on the clock, so
/// nothing is stated of it.
#[verifier::external_body]
fn system_now() -> std::time::SystemTime {
    std::time::SystemTime::now()
}

/// Calls `SystemTime::duration_since` with the Unix epoch; it fails when the
/// clock reads earlier than the epoch. Nothing is stated of the result.
#[verifier::external_body]
fn since_unix_epoch(t: std::time::SystemTime) -> Result<
    std::time::Duration,
    std::time::SystemTimeError,
> {
    t.duration_since(std::time::UNIX_EPOCH)
}

/// Calls `Duration::as_nanos`; the duration is opaque here, so nothing is
/// stated of the result.
#[verifier::external_body]
fn duration_as_nanos(d: &std::time::Duration) -> u128 {
    d.as_nanos()
}

} // verus!
