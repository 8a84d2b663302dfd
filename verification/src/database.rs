//! How connecting to the database is retried.

use vstd::prelude::*;

verus! {

/// Connection attempts made before giving up.
pub const CONNECT_MAX_ATTEMPTS: u32 = 3;

/// The wait after the first failed attempt, in milliseconds.
pub const CONNECT_BASE_DELAY_MILLIS: u64 = 500;

/// The longest wait between attempts, in milliseconds.
pub const CONNECT_MAX_DELAY_MILLIS: u64 = 5000;

/// `x` doubled `k` times.
pub open spec fn doubled(x: nat, k: nat) -> nat
    decreases k,
{
    if k == 0 {
        x
    } else {
        2 * doubled(x, (k - 1) as nat)
    }
}

/// The wait after failed attempt number `attempt` (counted from 1): the
/// base delay doubled per earlier failure, capped at the longest wait.
pub open spec fn retry_delay(attempt: nat) -> nat {
    let d = doubled(CONNECT_BASE_DELAY_MILLIS as nat, (attempt - 1) as nat);
    if d < CONNECT_MAX_DELAY_MILLIS {
        d
    } else {
        CONNECT_MAX_DELAY_MILLIS as nat
    }
}

proof fn lemma_doubled_grows(x: nat, k: nat)
    ensures
        doubled(x, k) <= doubled(x, k + 1),
{
}

proof fn lemma_doubled_monotonic(x: nat, j: nat, k: nat)
    requires
        j <= k,
    ensures
        doubled(x, j) <= doubled(x, k),
    decreases k - j,
{
    if j < k {
        lemma_doubled_monotonic(x, j, (k - 1) as nat);
        lemma_doubled_grows(x, (k - 1) as nat);
    }
}

/// After failed attempt number `attempt` (counted from 1): how long to wait
/// before the next attempt, or `None` when no attempt is left.
pub fn connect_retry_delay(attempt: u32) -> (d: Option<u64>)
    requires
        attempt >= 1,
    ensures
        attempt < CONNECT_MAX_ATTEMPTS ==> d == Some(retry_delay(attempt as nat) as u64),
        attempt >= CONNECT_MAX_ATTEMPTS ==> d is None,
{
    if attempt >= CONNECT_MAX_ATTEMPTS {
        return None;
    }
    let mut delay: u64 = CONNECT_BASE_DELAY_MILLIS;
    let mut k: u32 = 0;
    while k < attempt - 1
        invariant
            k <= attempt - 1,
            delay == (if doubled(CONNECT_BASE_DELAY_MILLIS as nat, k as nat)
                < CONNECT_MAX_DELAY_MILLIS {
                doubled(CONNECT_BASE_DELAY_MILLIS as nat, k as nat)
            } else {
                CONNECT_MAX_DELAY_MILLIS as nat
            }),
        decreases attempt - 1 - k,
    {
        if delay < CONNECT_MAX_DELAY_MILLIS / 2 {
            delay = delay * 2;
        } else {
            delay = CONNECT_MAX_DELAY_MILLIS;
        }
        k = k + 1;
    }
    Some(delay)
}

/// Waits between attempts never shrink, and never exceed the longest wait.
pub proof fn lemma_retry_delays_grow_and_are_capped(attempt: nat, later: nat)
    requires
        1 <= attempt <= later,
    ensures
        retry_delay(attempt) <= retry_delay(later),
        retry_delay(later) <= CONNECT_MAX_DELAY_MILLIS,
{
    lemma_doubled_monotonic(CONNECT_BASE_DELAY_MILLIS as nat, (attempt - 1) as nat, (later - 1) as nat);
}

} // verus!
