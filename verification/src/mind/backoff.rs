//! Exponential backoff with deterministic jitter.

use vstd::arithmetic::power2::{lemma2_to64, lemma_pow2_pos, lemma_pow2_unfold, pow2};
use vstd::prelude::*;

use crate::time::Duration;

verus! {

/// The target delay for retry `attempt` (1-based): `base * 2^(attempt-1)`, capped at
/// `cap`, all in nanoseconds.
pub open spec fn backoff_target(attempt: nat, base: nat, cap: nat) -> nat {
    let uncapped = base * pow2(
        if attempt == 0 {
            0
        } else {
            (attempt - 1) as nat
        },
    );
    if uncapped <= cap {
        uncapped
    } else {
        cap
    }
}

/// One round of the xorshift generator with shifts 13, 7 and 17.
pub open spec fn xorshift(seed: u64) -> u64 {
    let a = seed ^ (seed << 13);
    let b = a ^ (a >> 7);
    b ^ (b << 17)
}

/// What `xorshift_range` draws from `0..=max`.
pub open spec fn xorshift_draw(seed: u64, max: u64) -> nat {
    if max == 0 {
        0
    } else {
        xorshift(seed) as nat % (max as nat + 1)
    }
}

/// The delay in nanoseconds for retry `attempt`: the target where `seed` is 0, and
/// otherwise whole seconds drawn from those up to the target, which `seed` and
/// `attempt` fix.
pub open spec fn backoff_nanos(attempt: usize, base: nat, cap: nat, seed: u64) -> nat {
    let target = backoff_target(attempt as nat, base, cap);
    if seed == 0 {
        target
    } else {
        xorshift_draw(seed.wrapping_add(attempt as u64), (target / 1_000_000_000) as u64)
            * 1_000_000_000
    }
}

/// `base * 2^times`, capped at `cap`.
fn doubled(base: u128, times: usize, cap: u128) -> (value: u128)
    requires
        cap <= u128::MAX / 2,
    ensures
        value == if base * pow2(times as nat) <= cap {
            base * pow2(times as nat)
        } else {
            cap as int
        },
{
    if base == 0 {
        assert(0 * pow2(times as nat) == 0) by (nonlinear_arith);
        return 0;
    }
    let mut value: u128 = base;
    let mut left: usize = times;
    while left > 0 && value <= cap
        invariant
            value > 0,
            left <= times,
            cap <= u128::MAX / 2,
            value * pow2(left as nat) == base * pow2(times as nat),
        decreases left,
    {
        proof {
            lemma_pow2_unfold(left as nat);
            let rest = pow2((left - 1) as nat);
            assert(value * (2 * rest) == (value * 2) * rest) by (nonlinear_arith);
        }
        value = value * 2;
        left = left - 1;
    }
    proof {
        let rest = pow2(left as nat);
        lemma_pow2_pos(left as nat);
        if left == 0 {
            lemma2_to64();
            assert(value * 1 == value) by (nonlinear_arith);
        } else {
            assert(value * rest > cap) by (nonlinear_arith)
                requires
                    value > cap,
                    rest > 0,
                    cap >= 0,
            ;
        }
    }
    if value <= cap {
        value
    } else {
        cap
    }
}

/// Exponential backoff: the uncapped target delay for retry `attempt`
/// (1-based) is `base * 2^(attempt-1)`, capped at `cap`. With full
/// jitter the actual delay is `random(0, capped)`, in whole seconds. A `seed` of `0`
/// disables jitter so the delay is exactly the capped target. With jitter, the
/// target must be shorter than `u64::MAX` seconds.
pub fn exponential_backoff(attempt: usize, base: Duration, cap: Duration, seed: u64) -> (delay:
    Duration)
    requires
        seed != 0 ==> backoff_target(attempt as nat, base@, cap@) / 1_000_000_000 < u64::MAX,
    ensures
        delay@ == backoff_nanos(attempt, base@, cap@, seed),
{
    let exponent: usize = if attempt == 0 {
        0
    } else {
        attempt - 1
    };
    let capped: u128 = doubled(base.as_nanos(), exponent, cap.as_nanos());
    if seed == 0 {
        return Duration::of_nanos(capped);
    }
    let whole: u64 = (capped / 1_000_000_000) as u64;
    let jittered: u64 = xorshift_range(seed.wrapping_add(attempt as u64), whole);
    Duration::from_secs(jittered)
}

/// Simple xorshift PRNG for deterministic jitter: a number in `0..=max`.
pub fn xorshift_range(seed: u64, max: u64) -> (drawn: u64)
    requires
        max < u64::MAX,
    ensures
        drawn == xorshift_draw(seed, max),
{
    if max == 0 {
        return 0;
    }
    let a: u64 = seed ^ (seed << 13);
    let b: u64 = a ^ (a >> 7);
    let c: u64 = b ^ (b << 17);
    c % (max + 1)
}

/// Jitter only shortens a delay: no delay exceeds its target, and no target
/// exceeds the cap.
pub proof fn law_backoff_never_exceeds_the_cap(attempt: usize, base: nat, cap: nat, seed: u64)
    requires
        backoff_target(attempt as nat, base, cap) / 1_000_000_000 < u64::MAX,
    ensures
        backoff_nanos(attempt, base, cap, seed) <= backoff_target(attempt as nat, base, cap) <= cap,
{
    let whole = backoff_target(attempt as nat, base, cap) / 1_000_000_000;
    if seed != 0 && whole > 0 {
        let drawn = xorshift(seed.wrapping_add(attempt as u64)) as nat;
        assert(drawn % (whole + 1) < whole + 1) by (nonlinear_arith);
    }
}

/// Each target is twice the one before it, until the cap is reached.
pub proof fn law_backoff_doubles_up_to_the_cap(attempt: nat, base: nat, cap: nat)
    requires
        attempt >= 1,
    ensures
        backoff_target(1, base, cap) == if base <= cap { base } else { cap },
        backoff_target(0, base, cap) == backoff_target(1, base, cap),
        backoff_target(attempt + 1, base, cap) == if 2 * backoff_target(attempt, base, cap) <= cap {
            2 * backoff_target(attempt, base, cap)
        } else {
            cap
        },
{
    let before = pow2((attempt - 1) as nat);
    lemma_pow2_unfold(attempt);
    assert(base * (2 * before) == 2 * (base * before)) by (nonlinear_arith);
    lemma2_to64();
    assert(base * 1 == base) by (nonlinear_arith);
}

/// Targets never shrink from one attempt to a later one.
pub proof fn law_backoff_targets_never_shrink(earlier: nat, later: nat, base: nat, cap: nat)
    requires
        earlier <= later,
    ensures
        backoff_target(earlier, base, cap) <= backoff_target(later, base, cap),
    decreases later - earlier,
{
    if earlier < later {
        law_backoff_targets_never_shrink(earlier, (later - 1) as nat, base, cap);
        if later > 1 {
            law_backoff_doubles_up_to_the_cap((later - 1) as nat, base, cap);
        }
    }
}

/// The generator is linear: it maps the exclusive or of two seeds to that of what it
/// maps them to. Only zero is mapped to zero, so different seeds draw differently.
pub proof fn law_xorshift_is_linear(a: u64, b: u64)
    ensures
        xorshift(a ^ b) == xorshift(a) ^ xorshift(b),
        xorshift(a) == 0 <==> a == 0,
        a != b ==> xorshift(a) != xorshift(b),
{
    lemma_xorshift_is_linear(a, b);
    lemma_xorshift_of_zero(a);
    lemma_xorshift_of_zero(a ^ b);
    assert(a ^ b == 0 <==> a == b) by (bit_vector);
    let x = xorshift(a);
    assert(x ^ x == 0) by (bit_vector);
}

proof fn lemma_xorshift_is_linear(a: u64, b: u64)
    ensures
        xorshift(a ^ b) == xorshift(a) ^ xorshift(b),
{
    assert(xorshift(a ^ b) == xorshift(a) ^ xorshift(b)) by (bit_vector);
}

proof fn lemma_xorshift_of_zero(a: u64)
    ensures
        xorshift(a) == 0 <==> a == 0,
{
    assert(xorshift(a) == 0 <==> a == 0) by (bit_vector);
}

/// A draw is what the generator gives, brought into the range: it lies between zero
/// and `max`, and differs from what the generator gave by a multiple of `max + 1`.
pub proof fn law_draws_lie_in_their_range(seed: u64, max: u64)
    ensures
        xorshift_draw(seed, max) <= max,
        max > 0 ==> (xorshift(seed) - xorshift_draw(seed, max)) % (max + 1) == 0,
{
    let x = xorshift(seed) as int;
    let n = max as int + 1;
    if max > 0 {
        assert(0 <= x % n < n && (x - x % n) % n == 0) by (nonlinear_arith)
            requires
                x >= 0,
                n > 0,
        ;
    }
}

/// Without jitter a delay is its target, to the nanosecond. With jitter it is a whole
/// number of seconds, drawn by the seed and the attempt together.
pub proof fn law_jitter_draws_whole_seconds(attempt: usize, base: nat, cap: nat, seed: u64)
    ensures
        backoff_nanos(attempt, base, cap, 0) == backoff_target(attempt as nat, base, cap),
        seed != 0 ==> backoff_nanos(attempt, base, cap, seed) % 1_000_000_000 == 0,
        seed != 0 ==> backoff_nanos(attempt, base, cap, seed) / 1_000_000_000 == xorshift_draw(
            seed.wrapping_add(attempt as u64),
            (backoff_target(attempt as nat, base, cap) / 1_000_000_000) as u64,
        ),
{
}

} // verus!
