//! Drift compensation: the sleep that follows a callback, and the timeline
//! of invocation starts that results from it.

use vstd::prelude::*;

verus! {

/// Time to sleep after a callback that ran for `elapsed`, so that the next
/// invocation starts `period` after this one did. A callback that used up
/// the whole period is followed by no sleep at all.
pub open spec fn sleep_for(period: nat, elapsed: nat) -> nat {
    if elapsed < period {
        (period - elapsed) as nat
    } else {
        0
    }
}

/// Time from the start of one invocation to the start of the next, when the
/// callback ran for `elapsed`.
pub open spec fn cycle_len(period: nat, elapsed: nat) -> nat {
    elapsed + sleep_for(period, elapsed)
}

/// Start of invocation `n`, counted from the start of invocation 0, when
/// callback `i` ran for `elapsed[i]`.
pub open spec fn start_offset(period: nat, elapsed: Seq<nat>, n: nat) -> nat
    decreases n,
{
    if n == 0 {
        0
    } else {
        start_offset(period, elapsed, (n - 1) as nat) + cycle_len(period, elapsed[n - 1])
    }
}

/// Nanoseconds in a second.
pub const NANOS_PER_SEC: u64 = 1_000_000_000;

/// A time in nanoseconds as a `u64` holds it: anything beyond the largest
/// `u64` counts as the largest.
pub open spec fn saturated(nanos: nat) -> u64 {
    if nanos > u64::MAX {
        u64::MAX
    } else {
        nanos as u64
    }
}

/// A time given as whole seconds and further nanoseconds, in nanoseconds,
/// saturated to what a `u64` holds.
pub fn nanos_from_parts(secs: u64, subsec_nanos: u32) -> (r: u64)
    ensures
        r == saturated(secs as nat * NANOS_PER_SEC as nat + subsec_nanos as nat),
{
    let wide_secs: u128 = secs as u128;
    let per_sec: u128 = NANOS_PER_SEC as u128;
    assert(wide_secs * per_sec <= 0xffff_ffff_ffff_ffff * 1_000_000_000) by (nonlinear_arith)
        requires
            wide_secs <= 0xffff_ffff_ffff_ffff,
            per_sec == 1_000_000_000,
    ;
    let total: u128 = wide_secs * per_sec + subsec_nanos as u128;
    if total > u64::MAX as u128 {
        u64::MAX
    } else {
        total as u64
    }
}

/// The sleep that completes a cycle whose callback ran for `elapsed`:
/// `Some(period - elapsed)` while the callback stayed within the period,
/// `None` once it did not. Missed cycles are never made up for.
pub fn remaining_sleep(period: u64, elapsed: u64) -> (r: Option<u64>)
    ensures
        r is Some <==> elapsed < period,
        r matches Some(s) ==> s == period - elapsed,
        r.unwrap_or(0) == sleep_for(period as nat, elapsed as nat),
{
    if elapsed < period {
        Some(period - elapsed)
    } else {
        None
    }
}

/// A cycle lasts as long as the longer of the period and the callback.
pub proof fn lemma_cycle_is_longer_of_two(period: nat, elapsed: nat)
    ensures
        cycle_len(period, elapsed) == if elapsed <= period { period } else { elapsed },
        cycle_len(period, elapsed) >= period,
{
}

/// Consecutive invocation starts are at least one period apart, and exactly
/// the longer of the period and the callback's run time.
pub proof fn lemma_gap_between_starts(period: nat, elapsed: Seq<nat>, n: nat)
    requires
        n < elapsed.len(),
    ensures
        start_offset(period, elapsed, n + 1) - start_offset(period, elapsed, n) == cycle_len(
            period,
            elapsed[n as int],
        ),
        start_offset(period, elapsed, n + 1) - start_offset(period, elapsed, n) >= period,
{
}

/// No drift: while every callback finishes within the period, invocation
/// `n` starts exactly `n` periods after the first, however long the
/// callbacks ran.
pub proof fn lemma_no_drift(period: nat, elapsed: Seq<nat>, n: nat)
    requires
        n <= elapsed.len(),
        forall|i: int| 0 <= i < n ==> elapsed[i] <= period,
    ensures
        start_offset(period, elapsed, n) == n * period,
    decreases n,
{
    if n == 0 {
        assert(0 * period == 0) by (nonlinear_arith);
    } else {
        let m = (n - 1) as nat;
        lemma_no_drift(period, elapsed, m);
        assert(n * period == m * period + period) by (nonlinear_arith)
            requires
                n == m + 1,
        ;
    }
}

/// No catch-up: every start is at least `n` periods after the first, so an
/// overrun delays all later invocations and none is replayed.
pub proof fn lemma_starts_never_early(period: nat, elapsed: Seq<nat>, n: nat)
    requires
        n <= elapsed.len(),
    ensures
        start_offset(period, elapsed, n) >= n * period,
    decreases n,
{
    if n == 0 {
        assert(0 * period == 0) by (nonlinear_arith);
    } else {
        let m = (n - 1) as nat;
        lemma_starts_never_early(period, elapsed, m);
        assert(n * period == m * period + period) by (nonlinear_arith)
            requires
                n == m + 1,
        ;
    }
}

/// Saturating a callback's run time never changes the sleep that follows:
/// a time too long for a `u64` is past every period.
pub proof fn lemma_saturation_keeps_sleep(period: u64, elapsed: nat)
    ensures
        sleep_for(period as nat, saturated(elapsed) as nat) == sleep_for(period as nat, elapsed),
{
}

} // verus!
