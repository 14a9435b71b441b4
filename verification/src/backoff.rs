//! Deterministic exponential backoff: the delay before retry number `n` of a
//! failure class is `base * 2^n` milliseconds. No jitter is applied, on
//! purpose: the schedule is fully reproducible, at the documented cost of
//! synchronized retry storms across concurrent clients.

use vstd::prelude::*;
use vstd::arithmetic::power2::{pow2, lemma_pow2_strictly_increases, lemma2_to64};
use vstd::arithmetic::mul::lemma_mul_inequality;
use vstd::bits::lemma_u64_shl_is_mul;

verus! {

/// Largest retry exponent the calculator accepts: for every 32-bit base delay,
/// `base * 2^32` still fits in a `u64`, so no configuration within this bound
/// can make the backoff computation overflow.
pub const MAX_BACKOFF_EXPONENT: u8 = 32;

/// The delay, in milliseconds, to wait before the retry with attempt count
/// `attempt` of some failure class, as a mathematical value.
pub open spec fn spec_backoff(base_delay_ms: u32, attempt: nat) -> nat {
    (base_delay_ms as nat) * pow2(attempt)
}

/// `base * 2^attempt` never exceeds `u64::MAX` while the exponent stays within
/// [`MAX_BACKOFF_EXPONENT`].
proof fn lemma_backoff_fits(base_delay_ms: u32, attempt: u8)
    requires
        attempt <= MAX_BACKOFF_EXPONENT,
    ensures
        spec_backoff(base_delay_ms, attempt as nat) <= u64::MAX,
{
    lemma2_to64();
    if attempt < 32 {
        lemma_pow2_strictly_increases(attempt as nat, 32);
    }
    lemma_mul_inequality(pow2(attempt as nat) as int, pow2(32) as int, base_delay_ms as int);
    lemma_mul_inequality(base_delay_ms as int, u32::MAX as int, pow2(32) as int);
}

/// The backoff calculator: pure and deterministic, returning exactly
/// `base_delay_ms * 2^attempt` milliseconds.
pub fn backoff_delay_ms(base_delay_ms: u32, attempt: u8) -> (delay: u64)
    requires
        1 <= attempt <= MAX_BACKOFF_EXPONENT,
    ensures
        delay == spec_backoff(base_delay_ms, attempt as nat),
{
    proof {
        lemma_backoff_fits(base_delay_ms, attempt);
        lemma_u64_shl_is_mul(base_delay_ms as u64, attempt as u64);
    }
    (base_delay_ms as u64) << (attempt as u64)
}

/// The backoff schedule grows with the attempt count: it never decreases, and
/// for a positive base delay it strictly increases.
pub proof fn lemma_backoff_monotonic(base_delay_ms: u32, n1: u8, n2: u8)
    requires
        n1 <= n2 <= MAX_BACKOFF_EXPONENT,
    ensures
        spec_backoff(base_delay_ms, n1 as nat) <= spec_backoff(base_delay_ms, n2 as nat),
        base_delay_ms >= 1 && n1 < n2 ==> spec_backoff(base_delay_ms, n1 as nat)
            < spec_backoff(base_delay_ms, n2 as nat),
{
    if n1 < n2 {
        lemma_pow2_strictly_increases(n1 as nat, n2 as nat);
        assert(spec_backoff(base_delay_ms, n1 as nat) <= spec_backoff(base_delay_ms, n2 as nat))
            by (nonlinear_arith)
            requires
                pow2(n1 as nat) <= pow2(n2 as nat),
        ;
        if base_delay_ms >= 1 {
            assert(spec_backoff(base_delay_ms, n1 as nat) < spec_backoff(base_delay_ms, n2 as nat))
                by (nonlinear_arith)
                requires
                    pow2(n1 as nat) < pow2(n2 as nat),
                    base_delay_ms >= 1,
            ;
        }
    }
}

} // verus!
