//! Retry policy: exponential backoff with a cap, and the retry decision
//! for a classified outcome.

use vstd::prelude::*;
use vstd::arithmetic::power2::pow2;
use vstd::arithmetic::power2::lemma_pow2_strictly_increases;
use vstd::bits::lemma_u64_shl_is_mul;
use vstd::bits::lemma_u64_pow2_no_overflow;

verus! {

/// The backoff delay before retry number `attempt`: the base delay doubled
/// `attempt` times, but never more than the cap.
pub open spec fn spec_delay(base: nat, cap: nat, attempt: nat) -> nat {
    if base * pow2(attempt) <= cap {
        base * pow2(attempt)
    } else {
        cap
    }
}

/// Decides whether an outcome is retried and how long to wait first.
#[derive(Debug, Clone, Copy, PartialEq, Eq, Structural)]
pub struct RetryPolicy {
    /// Delay before the first retry, in milliseconds.
    pub base_delay_ms: u64,
    /// Upper bound on any delay, in milliseconds.
    pub delay_cap_ms: u64,
    /// How many retries may follow the first attempt.
    pub max_retries: u32,
}

/// What to do after a classified outcome: whether to retry, and after
/// how long a wait.
#[derive(Debug, Clone, Copy, PartialEq, Eq, Structural)]
pub struct RetryDecision {
    /// Whether another attempt should be made.
    pub should_retry: bool,
    /// How long to wait before that attempt, in milliseconds.
    pub delay_ms: u64,
}

impl Default for RetryPolicy {
    /// One-second base delay, one-minute cap, three retries.
    fn default() -> (p: RetryPolicy)
        ensures
            p.base_delay_ms == 1000,
            p.delay_cap_ms == 60000,
            p.max_retries == 3,
    {
        RetryPolicy { base_delay_ms: 1000, delay_cap_ms: 60000, max_retries: 3 }
    }
}

impl RetryPolicy {
    /// The delay before retry number `attempt`, counted from zero.
    pub fn delay_ms(&self, attempt: u32) -> (r: u64)
        ensures
            r as nat == spec_delay(
                self.base_delay_ms as nat,
                self.delay_cap_ms as nat,
                attempt as nat,
            ),
    {
        if self.base_delay_ms == 0 {
            return 0;
        }
        let doubled = if attempt >= 64 {
            proof {
                vstd::arithmetic::power2::lemma2_to64_rest();
                if attempt > 64 {
                    lemma_pow2_strictly_increases(64, attempt as nat);
                }
                assert(pow2(attempt as nat) > u64::MAX);
                assert(self.base_delay_ms * pow2(attempt as nat) >= pow2(attempt as nat))
                    by (nonlinear_arith)
                    requires
                        self.base_delay_ms >= 1,
                ;
            }
            u64::MAX
        } else {
            proof {
                lemma_u64_pow2_no_overflow(attempt as nat);
                lemma_u64_shl_is_mul(1u64, attempt as u64);
            }
            let p: u64 = 1u64 << attempt;
            match self.base_delay_ms.checked_mul(p) {
                Some(v) => v,
                None => {
                    proof {
                        assert(self.base_delay_ms * pow2(attempt as nat) > u64::MAX);
                    }
                    u64::MAX
                },
            }
        };
        if doubled <= self.delay_cap_ms {
            doubled
        } else {
            self.delay_cap_ms
        }
    }

    /// The decision for an outcome classified as retryable or terminal,
    /// after `attempt` attempts have already been made beyond the first.
    pub fn decide(&self, attempt: u32, retryable: bool) -> (d: RetryDecision)
        ensures
            d.should_retry == (retryable && attempt < self.max_retries),
            d.delay_ms as nat == spec_delay(
                self.base_delay_ms as nat,
                self.delay_cap_ms as nat,
                attempt as nat,
            ),
    {
        RetryDecision {
            should_retry: retryable && attempt < self.max_retries,
            delay_ms: self.delay_ms(attempt),
        }
    }
}

/// The backoff delay never exceeds the configured cap, and it is
/// non-decreasing in the attempt number.
pub proof fn lemma_delay_monotone(base: nat, cap: nat, a1: nat, a2: nat)
    requires
        a1 <= a2,
    ensures
        spec_delay(base, cap, a1) <= spec_delay(base, cap, a2),
        spec_delay(base, cap, a2) <= cap,
{
    if a1 < a2 {
        lemma_pow2_strictly_increases(a1, a2);
        assert(base * pow2(a1) <= base * pow2(a2)) by (nonlinear_arith)
            requires
                pow2(a1) <= pow2(a2),
        ;
    }
}

/// For the first attempt the delay is exactly the base delay, whenever the
/// base delay does not itself exceed the cap.
pub proof fn lemma_delay_at_zero(base: nat, cap: nat)
    requires
        base <= cap,
    ensures
        spec_delay(base, cap, 0) == base,
{
    vstd::arithmetic::power2::lemma2_to64();
}

} // verus!
