//! The bootstrap readiness loop: before the pipeline operates, the
//! backing store must answer a liveness probe and hold its indexes.
//!
//! The caller probes the store and attempts index creation; whether to
//! proceed, wait and try again, or give up — fatal to startup — is decided
//! here, with a bounded, exponentially backed-off schedule.

use vstd::prelude::*;
use vstd::arithmetic::power2::pow2;
use vstd::arithmetic::power2::lemma_pow2_unfold;
use vstd::arithmetic::power2::lemma_pow2_strictly_increases;
use vstd::arithmetic::power2::lemma2_to64;

verus! {

/// How many attempts startup makes before giving up.
pub const BOOTSTRAP_MAX_ATTEMPTS: u32 = 10;

/// Ceiling of the startup backoff, in milliseconds (5 seconds).
pub const BOOTSTRAP_DELAY_CAP_MS: u64 = 5_000;

/// The startup backoff after the attempt with the given index:
/// `min(100 * 2^attempt, 5000)` milliseconds.
pub open spec fn spec_bootstrap_delay_ms(attempt: nat) -> int {
    if 100 * pow2(attempt) < 5_000 {
        100 * pow2(attempt) as int
    } else {
        5_000
    }
}

/// What startup does after one readiness attempt: proceed, wait the given
/// delay and try again, or give up.
pub enum BootstrapAction {
    Proceed,
    RetryAfter(u64),
    GiveUp,
}

/// The startup backoff after the attempt with the given index.
pub fn bootstrap_delay_ms(attempt: u32) -> (ms: u64)
    requires
        attempt < BOOTSTRAP_MAX_ATTEMPTS,
    ensures
        ms == spec_bootstrap_delay_ms(attempt as nat),
        100 <= ms <= 5_000,
{
    proof {
        lemma2_to64();
    }
    let mut delay: u64 = 100;
    let mut i: u32 = 0;
    while i < attempt
        invariant
            i <= attempt,
            delay == spec_bootstrap_delay_ms(i as nat),
            100 <= delay <= 5_000,
        decreases attempt - i,
    {
        proof {
            lemma_pow2_unfold((i + 1) as nat);
            lemma_pow2_strictly_increases(i as nat, (i + 1) as nat);
        }
        let mut next = delay * 2;
        if next > BOOTSTRAP_DELAY_CAP_MS {
            next = BOOTSTRAP_DELAY_CAP_MS;
        }
        delay = next;
        i = i + 1;
    }
    delay
}

/// Decides what follows the readiness attempt with the given index: a
/// ready store lets startup proceed; failure waits one backoff and tries
/// again, until the attempt budget is spent, which is fatal to startup.
pub fn bootstrap_step(attempt: u32, ready: bool) -> (action: BootstrapAction)
    requires
        attempt < BOOTSTRAP_MAX_ATTEMPTS,
    ensures
        ready ==> action is Proceed,
        (!ready && attempt + 1 < BOOTSTRAP_MAX_ATTEMPTS) ==> (
        action matches BootstrapAction::RetryAfter(d) && d == spec_bootstrap_delay_ms(
            attempt as nat,
        )),
        (!ready && attempt + 1 == BOOTSTRAP_MAX_ATTEMPTS) ==> action is GiveUp,
{
    if ready {
        BootstrapAction::Proceed
    } else if attempt + 1 < BOOTSTRAP_MAX_ATTEMPTS {
        BootstrapAction::RetryAfter(bootstrap_delay_ms(attempt))
    } else {
        BootstrapAction::GiveUp
    }
}

} // verus!
