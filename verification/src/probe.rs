//! The connectivity probe's backoff policy.
//!
//! The probe gates reconciliation cycles: before each cycle the caller
//! checks the provider's reachability, and on failure waits with
//! exponential backoff before the next attempt.  The policy here is pure
//! state — a failure streak and the backoff parameters — so the wait times
//! are computed and checked without real delays; the caller performs the
//! reachability check and the sleep.

use vstd::arithmetic::mul::lemma_mul_is_associative;
use vstd::arithmetic::power2::lemma_pow2_unfold;
use vstd::arithmetic::power2::pow2;
use vstd::prelude::*;

verus! {

/// The service status a successful probe attempt reports.
#[derive(Clone, Copy, Debug, PartialEq, Eq, Structural)]
pub enum NetworkStatus {
    /// The probe succeeded and the failure streak was already zero.
    AlreadyOnline,
    /// The probe succeeded after one or more failures in this streak.
    JustRecovered,
}

/// The wait after a failure streak: the base wait doubled for each failure
/// beyond the first, capped by the maximum.
pub open spec fn spec_backoff(base: u64, max: u64, failures: u64) -> int
    recommends
        1 <= failures,
{
    let raw = (base as int) * (pow2((failures - 1) as nat) as int);
    if raw > max as int {
        max as int
    } else {
        raw
    }
}

/// The connectivity probe's state: its failure streak and backoff policy.
/// The streak is zero exactly when the most recent attempt succeeded.
#[derive(Debug)]
pub struct NetworkProbe {
    pub consecutive_failures: u64,
    pub base_backoff_secs: u64,
    pub max_backoff_secs: u64,
}

impl NetworkProbe {
    /// A probe with the default policy: a five-second wait doubling up to
    /// five minutes.
    pub fn new() -> (p: Self)
        ensures
            p.consecutive_failures == 0,
            p.base_backoff_secs == 5,
            p.max_backoff_secs == 300,
    {
        NetworkProbe { consecutive_failures: 0, base_backoff_secs: 5, max_backoff_secs: 300 }
    }

    /// Registers a successful probe attempt: the streak resets, and the
    /// status reports a recovery exactly when failures preceded it in this
    /// streak.
    pub fn record_success(&mut self) -> (status: NetworkStatus)
        ensures
            final(self).consecutive_failures == 0,
            final(self).base_backoff_secs == old(self).base_backoff_secs,
            final(self).max_backoff_secs == old(self).max_backoff_secs,
            status == (if old(self).consecutive_failures > 0 {
                NetworkStatus::JustRecovered
            } else {
                NetworkStatus::AlreadyOnline
            }),
    {
        let was_down = self.consecutive_failures > 0;
        self.consecutive_failures = 0;
        if was_down {
            NetworkStatus::JustRecovered
        } else {
            NetworkStatus::AlreadyOnline
        }
    }

    /// Registers a failed probe attempt: the streak grows by one, and the
    /// returned wait is the capped exponential backoff of the new streak.
    pub fn handle_failure(&mut self) -> (wait_secs: u64)
        ensures
            final(self).consecutive_failures == (if old(self).consecutive_failures < u64::MAX {
                old(self).consecutive_failures + 1int
            } else {
                u64::MAX as int
            }),
            final(self).base_backoff_secs == old(self).base_backoff_secs,
            final(self).max_backoff_secs == old(self).max_backoff_secs,
            wait_secs == spec_backoff(
                old(self).base_backoff_secs,
                old(self).max_backoff_secs,
                final(self).consecutive_failures,
            ),
    {
        if self.consecutive_failures < u64::MAX {
            self.consecutive_failures = self.consecutive_failures + 1;
        }
        compute_backoff(self.base_backoff_secs, self.max_backoff_secs, self.consecutive_failures)
    }
}

/// Computes the capped exponential backoff wait for a failure streak.
pub fn compute_backoff(base: u64, max: u64, failures: u64) -> (wait: u64)
    requires
        1 <= failures,
    ensures
        wait == spec_backoff(base, max, failures),
{
    let mut wait: u64 = if base > max {
        max
    } else {
        base
    };
    let mut k: u64 = 1;
    proof {
        vstd::arithmetic::power2::lemma2_to64();
        assert(pow2(0) == 1);
        assert((base as int) * (pow2(0) as int) == base as int);
    }
    while k < failures
        invariant
            1 <= k <= failures,
            wait == spec_backoff(base, max, k),
            wait <= max,
        decreases failures - k,
    {
        let ghost raw_k = (base as int) * (pow2((k - 1) as nat) as int);
        let ghost raw_next = (base as int) * (pow2(k as nat) as int);
        proof {
            lemma_pow2_unfold(k as nat);
            lemma_mul_is_associative(base as int, 2, pow2((k - 1) as nat) as int);
            lemma_mul_is_associative(2, base as int, pow2((k - 1) as nat) as int);
            assert(raw_next == 2 * raw_k);
            vstd::arithmetic::mul::lemma_mul_nonnegative(
                base as int,
                pow2((k - 1) as nat) as int,
            );
        }
        if wait > max / 2 {
            proof {
                assert(2 * (wait as int) > max as int);
                if raw_k > max {
                    assert(raw_next >= raw_k);
                } else {
                    assert(raw_next == 2 * raw_k && raw_k == wait);
                }
                assert(raw_next > max as int);
            }
            wait = max;
        } else {
            proof {
                assert(2 * (wait as int) <= max as int);
                if raw_k > max as int {
                    assert(wait == max as int);
                    assert(max as int == 0);
                    assert(raw_next == 2 * raw_k && raw_k >= 0);
                    assert(raw_next > max as int);
                } else {
                    assert(raw_k == wait as int);
                    assert(raw_next == 2 * (wait as int));
                }
            }
            wait = wait * 2;
        }
        k = k + 1;
    }
    wait
}

} // verus!
