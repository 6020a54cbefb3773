//! Exponential back-off between delivery attempts.
use vstd::prelude::*;
use vstd::arithmetic::power2::{
    lemma2_to64, lemma_pow2_pos, lemma_pow2_strictly_increases, lemma_pow2_unfold,
    pow2,
};
use std::time::Duration;

verus! {

/// The length of a duration in nanoseconds, as `Duration::as_nanos` gives it.
pub uninterp spec fn duration_nanos(d: Duration) -> u128;

/// The longest duration that `Duration` can hold, in nanoseconds
/// (`u64::MAX` seconds and 999 999 999 nanoseconds).
pub open spec fn max_duration_nanos() -> nat {
    u64::MAX as nat * 1_000_000_000 + 999_999_999
}

/// `Duration::as_nanos`.
#[verifier::external_body]
pub(crate) fn duration_as_nanos(d: Duration) -> (r: u128)
    ensures
        r == duration_nanos(d),
{
    d.as_nanos()
}

/// `Duration::from_secs`: a duration of `secs` whole seconds.
#[verifier::external_body]
pub(crate) fn duration_from_secs(secs: u64) -> (r: Duration)
    ensures
        duration_nanos(r) == secs as nat * 1_000_000_000,
{
    Duration::from_secs(secs)
}

/// `Duration * u32`, which panics where the product does not fit in a
/// `Duration`.
#[verifier::external_body]
pub(crate) fn duration_mul(d: Duration, k: u32) -> (r: Duration)
    requires
        duration_nanos(d) * k <= max_duration_nanos(),
    ensures
        duration_nanos(r) == duration_nanos(d) * k,
{
    d * k
}

/// Two to the power `e`, as `2u32.pow(e)` computes it.
pub fn two_to_the(e: u32) -> (r: u32)
    requires
        e < 32,
    ensures
        r == pow2(e as nat),
{
    let mut r: u32 = 1;
    let mut i: u32 = 0;
    proof {
        lemma2_to64();
    }
    while i < e
        invariant
            i <= e < 32,
            r == pow2(i as nat),
        decreases e - i,
    {
        proof {
            lemma_pow2_unfold((i + 1) as nat);
            lemma2_to64();
            if i + 1 < 31 {
                lemma_pow2_strictly_increases((i + 1) as nat, 31);
            }
        }
        r = r * 2;
        i = i + 1;
    }
    r
}

/// The back-off before retry number `attempt` (counting from one), in
/// nanoseconds: the base delay doubled for each earlier attempt, capped at
/// `max`.
pub open spec fn backoff_nanos(attempt: nat, base: nat, max: nat) -> nat {
    let exponential = base * pow2((attempt - 1) as nat);
    if exponential <= max {
        exponential
    } else {
        max
    }
}

/// The back-off after failed attempt number `attempt` (counting from one):
/// `base * 2^(attempt - 1)`, capped at `max`. The attempt number must stay
/// within 32 and the doubled delay within what a `Duration` can hold, as
/// the computation panics otherwise.
pub fn calculate_backoff(attempt: u32, base: Duration, max: Duration) -> (r: Duration)
    requires
        1 <= attempt <= 32,
        duration_nanos(base) * pow2((attempt - 1) as nat) <= max_duration_nanos(),
    ensures
        duration_nanos(r) == backoff_nanos(
            attempt as nat,
            duration_nanos(base) as nat,
            duration_nanos(max) as nat,
        ),
{
    let factor = two_to_the(attempt - 1);
    let exponential = duration_mul(base, factor);
    if duration_as_nanos(exponential) <= duration_as_nanos(max) {
        exponential
    } else {
        max
    }
}

/// The back-off after failed attempt number `attempt`, as
/// [`calculate_backoff`] gives it, or `None` where that computation would
/// panic: an attempt number outside 1 to 32, or a doubled delay beyond what
/// a `Duration` can hold.
pub fn checked_backoff(attempt: u32, base: Duration, max: Duration) -> (r: Option<Duration>)
    ensures
        r is Some <==> (1 <= attempt <= 32 && duration_nanos(base) * pow2((attempt - 1) as nat)
            <= max_duration_nanos()),
        r matches Some(d) ==> duration_nanos(d) == backoff_nanos(
            attempt as nat,
            duration_nanos(base) as nat,
            duration_nanos(max) as nat,
        ),
{
    if attempt < 1 || attempt > 32 {
        return None;
    }
    let base_nanos = duration_as_nanos(base);
    proof {
        let e = (attempt - 1) as nat;
        lemma2_to64();
        if e < 31 {
            lemma_pow2_strictly_increases(e, 31);
        }
    }
    let factor = two_to_the(attempt - 1);
    // Both factors are small enough that their product fits in a u128.
    if base_nanos > 18_446_744_073_709_551_615_999_999_999u128 {
        proof {
            lemma_pow2_pos((attempt - 1) as nat);
            assert(base_nanos * pow2((attempt - 1) as nat) >= base_nanos) by (nonlinear_arith)
                requires
                    pow2((attempt - 1) as nat) > 0,
            ;
        }
        return None;
    }
    assert(base_nanos * factor <= 18_446_744_073_709_551_615_999_999_999u128 * 2_147_483_648u128)
        by (nonlinear_arith)
        requires
            base_nanos <= 18_446_744_073_709_551_615_999_999_999u128,
            factor <= 2_147_483_648u128,
    ;
    let product = base_nanos * (factor as u128);
    if product > 18_446_744_073_709_551_615_999_999_999u128 {
        return None;
    }
    Some(calculate_backoff(attempt, base, max))
}

/// The first retry waits the base delay, or the cap where that is shorter.
pub proof fn first_backoff_is_the_base_delay(base: nat, max: nat)
    ensures
        base <= max ==> backoff_nanos(1, base, max) == base,
        base > max ==> backoff_nanos(1, base, max) == max,
{
    lemma2_to64();
    assert(pow2(0) == 1);
    assert(base * pow2(0) == base);
}

/// A back-off never exceeds the cap.
pub proof fn backoff_is_capped(attempt: nat, base: nat, max: nat)
    requires
        attempt >= 1,
    ensures
        backoff_nanos(attempt, base, max) <= max,
{
}

/// Back-offs never shrink from one attempt to a later one.
pub proof fn backoff_never_shrinks(a1: nat, a2: nat, base: nat, max: nat)
    requires
        1 <= a1 <= a2,
    ensures
        backoff_nanos(a1, base, max) <= backoff_nanos(a2, base, max),
{
    if a1 < a2 {
        lemma_pow2_strictly_increases((a1 - 1) as nat, (a2 - 1) as nat);
        assert(base * pow2((a1 - 1) as nat) <= base * pow2((a2 - 1) as nat)) by (nonlinear_arith)
            requires
                pow2((a1 - 1) as nat) < pow2((a2 - 1) as nat),
        ;
    }
}

/// Below the cap, each back-off is twice the one before it.
pub proof fn backoff_doubles_below_cap(attempt: nat, base: nat, max: nat)
    requires
        attempt >= 1,
        base * pow2(attempt) <= max,
    ensures
        backoff_nanos(attempt + 1, base, max) == 2 * backoff_nanos(attempt, base, max),
{
    lemma_pow2_unfold(attempt);
    assert(base * pow2(attempt) == 2 * (base * pow2((attempt - 1) as nat))) by (nonlinear_arith)
        requires
            pow2(attempt) == 2 * pow2((attempt - 1) as nat),
    ;
    assert(base * pow2((attempt - 1) as nat) <= base * pow2(attempt)) by (nonlinear_arith)
        requires
            pow2(attempt) == 2 * pow2((attempt - 1) as nat),
    ;
}

} // verus!
