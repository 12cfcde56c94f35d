//! Times, in nanoseconds of a clock that never goes back, and counters that stop
//! at their limit.

use vstd::prelude::*;

verus! {

/// What has passed since an earlier reading of the clock.
pub open spec fn elapsed(now_ns: u64, since_ns: u64) -> nat {
    if now_ns >= since_ns {
        (now_ns - since_ns) as nat
    } else {
        0
    }
}

/// Whether an interval has passed since it was last started. One that was never
/// started has passed.
pub open spec fn due(now_ns: u64, since_ns: Option<u64>, interval_ns: u64) -> bool {
    match since_ns {
        Some(since) => elapsed(now_ns, since) >= interval_ns,
        None => true,
    }
}

/// A number that stops at the limit of a counter.
pub open spec fn sat(n: int) -> u64 {
    if n > u64::MAX {
        u64::MAX
    } else {
        n as u64
    }
}

/// What has passed since an earlier reading of the clock.
pub fn elapsed_ns(now_ns: u64, since_ns: u64) -> (passed: u64)
    ensures
        passed == elapsed(now_ns, since_ns),
{
    if now_ns >= since_ns {
        now_ns - since_ns
    } else {
        0
    }
}

/// Whether an interval has passed since it was last started.
pub fn is_due(now_ns: u64, since_ns: Option<u64>, interval_ns: u64) -> (passed: bool)
    ensures
        passed == due(now_ns, since_ns, interval_ns),
{
    match since_ns {
        Some(since) => elapsed_ns(now_ns, since) >= interval_ns,
        None => true,
    }
}

/// The sum of two counters, which stops at the limit.
pub fn plus(a: u64, b: u64) -> (sum: u64)
    ensures
        sum == sat(a + b),
{
    a.saturating_add(b)
}

/// What has passed takes the clock from the earlier reading to the later one, and nothing
/// has passed where the clock seems to have gone back. An interval has passed once that is
/// as long as it, and one that was never started has passed.
pub proof fn law_time_passes(now_ns: u64, since_ns: u64, interval_ns: u64)
    ensures
        now_ns >= since_ns ==> since_ns + elapsed(now_ns, since_ns) == now_ns,
        now_ns < since_ns ==> elapsed(now_ns, since_ns) == 0,
        now_ns >= since_ns ==> (due(now_ns, Some(since_ns), interval_ns) <==> now_ns >= since_ns
            + interval_ns),
        due(now_ns, None, interval_ns),
{
}

/// A counter counts up to its limit and stops there.
pub proof fn law_counters_stop_at_their_limit(a: u64, b: u64)
    ensures
        a + b <= u64::MAX ==> sat(a + b) == a + b,
        a + b > u64::MAX ==> sat(a + b) == u64::MAX,
{
}

} // verus!
