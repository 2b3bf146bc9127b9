//! The arithmetic of one bucket: a single arrival time per key stands for the
//! units that the key has used, and one check moves it forward by one period.
//!
//! All instants and durations are nanoseconds. An instant is counted from the
//! moment the limiter was made. Arrival times are stored in 64 bits, and a
//! bucket may owe one window of time, so the limiter counts instants up to
//! the horizon of its quota, one window before the end of those 64 bits (584
//! years less the window). A check at a later instant is counted at the
//! horizon: from there on no unit comes back, and no debt is ever lost.

use crate::quota::Quota;
use vstd::arithmetic::div_mod::lemma_div_by_multiple;
use vstd::arithmetic::div_mod::lemma_div_is_ordered;
use vstd::arithmetic::div_mod::lemma_div_pos_is_pos;
use vstd::arithmetic::mul::lemma_mul_is_distributive_sub_other_way;
use vstd::prelude::*;

verus! {

/// What one check of a key against its quota comes to.
#[derive(Clone, Copy, Debug, PartialEq, Eq, Structural)]
pub enum Decision {
    /// The request took one unit. `remaining` units are left, `limit` is the
    /// burst size, and after `reset_after` the bucket is full again.
    Admitted { remaining: u32, limit: u32, reset_after: u64 },
    /// The bucket had no unit. After `retry_after` it has one.
    Denied { retry_after: u64, limit: u32 },
}

/// The instant at which a check at `now` is counted: `now` itself up to the
/// horizon of the quota, and the horizon from there on.
pub open spec fn counted_at(now: u64, quota: Quota) -> int {
    if now <= quota.spec_horizon() {
        now as int
    } else {
        quota.spec_horizon()
    }
}

/// The instant from which the next unit is counted: the stored arrival time,
/// or the instant of the check where there is none or it lies in the past.
pub open spec fn arrival_base(state: Option<u64>, now: u64, quota: Quota) -> int {
    match state {
        Some(tat) => if tat > counted_at(now, quota) {
            tat as int
        } else {
            counted_at(now, quota)
        },
        None => counted_at(now, quota),
    }
}

/// The arrival time that the bucket holds once this check is admitted.
pub open spec fn next_arrival(state: Option<u64>, now: u64, quota: Quota) -> int {
    arrival_base(state, now, quota) + quota.spec_period()
}

/// The earliest instant at which this check can be admitted. It may lie before
/// the limiter was made, so it is an `int`.
pub open spec fn allow_at(state: Option<u64>, now: u64, quota: Quota) -> int {
    next_arrival(state, now, quota) - quota.spec_window()
}

/// Whether a check at `now` is admitted.
pub open spec fn conforms(state: Option<u64>, now: u64, quota: Quota) -> bool {
    allow_at(state, now, quota) <= counted_at(now, quota)
}

/// The bucket after the check: moved forward to the next arrival where the
/// check is admitted, untouched where it is denied.
pub open spec fn state_after(state: Option<u64>, now: u64, quota: Quota) -> Option<u64> {
    if conforms(state, now, quota) {
        Some(next_arrival(state, now, quota) as u64)
    } else {
        state
    }
}

/// The whole units left once an admitted check has taken its own.
pub open spec fn remaining_after(state: Option<u64>, now: u64, quota: Quota) -> int {
    (counted_at(now, quota) - allow_at(state, now, quota)) / (quota.spec_period() as int)
}

/// The decision of a check at `now` on a bucket in `state`.
pub open spec fn decision_for(state: Option<u64>, now: u64, quota: Quota) -> Decision {
    if conforms(state, now, quota) {
        Decision::Admitted {
            remaining: remaining_after(state, now, quota) as u32,
            limit: quota.spec_burst_size(),
            reset_after: (next_arrival(state, now, quota) - counted_at(now, quota)) as u64,
        }
    } else {
        Decision::Denied {
            retry_after: (allow_at(state, now, quota) - counted_at(now, quota)) as u64,
            limit: quota.spec_burst_size(),
        }
    }
}

/// A bucket never holds more than one window of debt: its arrival time is at
/// most one window ahead of the instant of the last check.
pub open spec fn within_capacity(state: Option<u64>, now: u64, quota: Quota) -> bool {
    state matches Some(tat) ==> tat <= counted_at(now, quota) + quota.spec_window()
}

/// Whether a bucket is full at `now`: it has no arrival time, or one that
/// has passed.
pub open spec fn is_full(state: Option<u64>, now: u64, quota: Quota) -> bool {
    state matches Some(tat) ==> tat <= counted_at(now, quota)
}

/// The bucket after `checks` checks in a row, all at the instant `now`.
pub open spec fn after_checks(state: Option<u64>, now: u64, quota: Quota, checks: nat) -> Option<
    u64,
>
    decreases checks,
{
    if checks == 0 {
        state
    } else {
        state_after(after_checks(state, now, quota, (checks - 1) as nat), now, quota)
    }
}

/// The bucket after one check at each of `instants`, in their order.
pub open spec fn after_all(state: Option<u64>, instants: Seq<u64>, quota: Quota) -> Option<u64>
    decreases instants.len(),
{
    if instants.len() == 0 {
        state
    } else {
        state_after(after_all(state, instants.drop_last(), quota), instants.last(), quota)
    }
}

/// How many of the checks at `instants`, made in their order, are admitted.
pub open spec fn admitted_of(state: Option<u64>, instants: Seq<u64>, quota: Quota) -> nat
    decreases instants.len(),
{
    if instants.len() == 0 {
        0
    } else {
        let before = after_all(state, instants.drop_last(), quota);
        let earlier = admitted_of(state, instants.drop_last(), quota);
        if conforms(before, instants.last(), quota) {
            earlier + 1
        } else {
            earlier
        }
    }
}

/// The instant at which a check is counted is an instant of the limiter, is
/// never later than the check, and never runs backwards.
pub proof fn lemma_counted_at(now: u64, later: u64, quota: Quota)
    requires
        quota.wf(),
        now <= later,
    ensures
        0 <= counted_at(now, quota) <= now,
        counted_at(now, quota) <= counted_at(later, quota) <= quota.spec_horizon(),
        counted_at(later, quota) - counted_at(now, quota) <= later - now,
        now <= quota.spec_horizon() ==> counted_at(now, quota) == now,
{
    quota.lemma_window_bounds();
}

/// An admitted check leaves between zero and `burst_size - 1` units, and
/// stores an arrival time after its own instant and at most one window ahead
/// of it, which fits the 64 bits of the store. A denied check has to wait.
pub proof fn lemma_decision_bounds(state: Option<u64>, now: u64, quota: Quota)
    requires
        quota.wf(),
    ensures
        conforms(state, now, quota) ==> {
            &&& 0 <= remaining_after(state, now, quota) <= quota.spec_burst_size() - 1
            &&& counted_at(now, quota) + quota.spec_period() <= next_arrival(state, now, quota)
            &&& next_arrival(state, now, quota) <= counted_at(now, quota) + quota.spec_window()
            &&& 0 < next_arrival(state, now, quota) <= u64::MAX
        },
        !conforms(state, now, quota) ==> 0 < allow_at(state, now, quota) - counted_at(now, quota)
            <= u64::MAX,
{
    quota.lemma_window_bounds();
    lemma_counted_at(now, now, quota);
    let p = quota.spec_period() as int;
    let n = quota.spec_burst_size() as int;
    if conforms(state, now, quota) {
        let spare = counted_at(now, quota) - allow_at(state, now, quota);
        assert(0 <= spare <= (n - 1) * p);
        lemma_div_pos_is_pos(spare, p);
        lemma_div_is_ordered(spare, (n - 1) * p, p);
        lemma_div_by_multiple(n - 1, p);
    }
}

/// The instant at which a check at `now` is counted.
pub fn count_at(now: u64, quota: &Quota) -> (at: u64)
    ensures
        at == counted_at(now, *quota),
        at <= now,
{
    let horizon: u64 = quota.horizon();
    if now <= horizon {
        now
    } else {
        horizon
    }
}

/// Runs one check: the decision, and for an admitted check the arrival time to
/// store. A denied check stores nothing.
pub fn decide(state: Option<u64>, now: u64, quota: &Quota) -> (r: Result<(Decision, u64), Decision>)
    ensures
        quota.wf(),
        match r {
            Ok((d, next)) => {
                &&& conforms(state, now, *quota)
                &&& d == decision_for(state, now, *quota)
                &&& state_after(state, now, *quota) == Some(next)
                &&& next == next_arrival(state, now, *quota)
                &&& within_capacity(Some(next), now, *quota)
                &&& next > 0
            },
            Err(d) => {
                &&& !conforms(state, now, *quota)
                &&& d == decision_for(state, now, *quota)
                &&& state_after(state, now, *quota) == state
            },
        },
{
    let period: u64 = quota.period();
    let limit: u32 = quota.burst_size();
    let window: u64 = quota.window();
    proof {
        lemma_decision_bounds(state, now, *quota);
        quota.lemma_window_bounds();
    }
    let at: u64 = count_at(now, quota);
    let base: u64 = match state {
        Some(tat) => if tat > at {
            tat
        } else {
            at
        },
        None => at,
    };
    let next: u128 = base as u128 + period as u128;
    let latest: u128 = at as u128 + window as u128;
    if next <= latest {
        let remaining: u128 = (latest - next) / (period as u128);
        let stored: u64 = next as u64;
        Ok(
            (
                Decision::Admitted { remaining: remaining as u32, limit, reset_after: stored - at },
                stored,
            ),
        )
    } else {
        Err(Decision::Denied { retry_after: (next - latest) as u64, limit })
    }
}

/// A check leaves the bucket within its capacity, whatever it held before.
pub proof fn lemma_capacity_kept(state: Option<u64>, now: u64, quota: Quota)
    requires
        quota.wf(),
        within_capacity(state, now, quota),
    ensures
        within_capacity(state_after(state, now, quota), now, quota),
{
    lemma_decision_bounds(state, now, quota);
}

/// Capacity is counted against the clock: what holds at one instant holds at
/// every later one.
pub proof fn lemma_capacity_monotonic(state: Option<u64>, now: u64, later: u64, quota: Quota)
    requires
        quota.wf(),
        within_capacity(state, now, quota),
        now <= later,
    ensures
        within_capacity(state, later, quota),
{
    lemma_counted_at(now, later, quota);
}

/// Whatever checks a bucket has seen, it is within its capacity: counted
/// from the latest of them, it owes no more than one window.
pub proof fn lemma_checks_keep_capacity(
    state: Option<u64>,
    instants: Seq<u64>,
    last: u64,
    quota: Quota,
)
    requires
        quota.wf(),
        within_capacity(state, last, quota),
        forall|i: int| 0 <= i < instants.len() ==> #[trigger] instants[i] <= last,
    ensures
        within_capacity(after_all(state, instants, quota), last, quota),
    decreases instants.len(),
{
    if instants.len() > 0 {
        lemma_checks_keep_capacity(state, instants.drop_last(), last, quota);
        lemma_decision_bounds(
            after_all(state, instants.drop_last(), quota),
            instants.last(),
            quota,
        );
        lemma_counted_at(instants.last(), last, quota);
    }
}

/// A full bucket decides as a key that was never seen, now and at every
/// later instant, so dropping it from the store changes no decision.
pub proof fn lemma_idle_is_fresh(tat: u64, now: u64, later: u64, quota: Quota)
    requires
        quota.wf(),
        is_full(Some(tat), now, quota),
        now <= later,
    ensures
        is_full(Some(tat), later, quota),
        conforms(Some(tat), later, quota),
        conforms(None, later, quota),
        decision_for(Some(tat), later, quota) == decision_for(None, later, quota),
        state_after(Some(tat), later, quota) == state_after(None, later, quota),
{
    quota.lemma_window_bounds();
    lemma_counted_at(now, later, quota);
}

/// After `checks` checks at one instant, none more than the burst size, a
/// full bucket holds the instant of the checks plus one period for each.
pub proof fn lemma_after_checks(state: Option<u64>, now: u64, quota: Quota, checks: nat)
    requires
        quota.wf(),
        is_full(state, now, quota),
        1 <= checks <= quota.spec_burst_size(),
    ensures
        after_checks(state, now, quota, checks) == Some(
            (counted_at(now, quota) + checks * quota.spec_period()) as u64,
        ),
        counted_at(now, quota) + checks * quota.spec_period() <= counted_at(now, quota)
            + quota.spec_window(),
    decreases checks,
{
    let p = quota.spec_period() as int;
    let n = quota.spec_burst_size() as int;
    let k = checks as int;
    let at = counted_at(now, quota);
    quota.lemma_window_bounds();
    lemma_counted_at(now, now, quota);
    assert(k * p <= n * p) by (nonlinear_arith)
        requires
            0 <= k <= n,
            0 <= p,
    ;
    assert((k - 1) * p + p == k * p) by (nonlinear_arith);
    if checks == 1 {
        assert(k * p == p) by (nonlinear_arith)
            requires
                k == 1,
        ;
        assert(after_checks(state, now, quota, 0) == state);
        assert(next_arrival(state, now, quota) == at + p);
        assert(conforms(state, now, quota));
    } else {
        lemma_after_checks(state, now, quota, (checks - 1) as nat);
        let before = after_checks(state, now, quota, (checks - 1) as nat);
        assert(before == Some((at + (k - 1) * p) as u64));
        assert((k - 1) * p >= 0) by (nonlinear_arith)
            requires
                k >= 1,
                p >= 0,
        ;
        assert(next_arrival(before, now, quota) == at + k * p);
        assert(conforms(before, now, quota));
    }
}

/// A burst at one instant, whatever the instant: a full bucket admits
/// exactly `burst_size` checks. The check after `done` admitted ones leaves
/// `burst_size - 1 - done` units and is reset `done + 1` periods later; the
/// check after `burst_size` admitted ones is denied, and may be tried again
/// one period later. A key that was never seen has a full bucket.
pub proof fn lemma_burst(state: Option<u64>, now: u64, quota: Quota, done: nat)
    requires
        quota.wf(),
        is_full(state, now, quota),
        done <= quota.spec_burst_size(),
    ensures
        done < quota.spec_burst_size() ==> decision_for(
            after_checks(state, now, quota, done),
            now,
            quota,
        ) == (Decision::Admitted {
            remaining: (quota.spec_burst_size() - 1 - done) as u32,
            limit: quota.spec_burst_size(),
            reset_after: ((done + 1) * quota.spec_period()) as u64,
        }),
        done == quota.spec_burst_size() ==> decision_for(
            after_checks(state, now, quota, done),
            now,
            quota,
        ) == (Decision::Denied {
            retry_after: quota.spec_period(),
            limit: quota.spec_burst_size(),
        }),
{
    let p = quota.spec_period() as int;
    let n = quota.spec_burst_size() as int;
    let k = done as int;
    let at = counted_at(now, quota);
    quota.lemma_window_bounds();
    lemma_counted_at(now, now, quota);
    let before = after_checks(state, now, quota, done);
    assert(arrival_base(before, now, quota) == at + k * p) by {
        if done == 0 {
            assert(k * p == 0) by (nonlinear_arith)
                requires
                    k == 0,
            ;
        } else {
            lemma_after_checks(state, now, quota, done);
        }
    }
    assert(k * p + p == (k + 1) * p) by (nonlinear_arith);
    lemma_mul_is_distributive_sub_other_way(p, n, k + 1);
    assert(at - allow_at(before, now, quota) == (n - 1 - k) * p);
    if done < quota.spec_burst_size() {
        assert((n - 1 - k) * p >= 0) by (nonlinear_arith)
            requires
                n - 1 - k >= 0,
                p >= 0,
        ;
        lemma_div_by_multiple(n - 1 - k, p);
        assert((k + 1) * p <= n * p) by (nonlinear_arith)
            requires
                0 <= k + 1 <= n,
                0 <= p,
        ;
    } else {
        assert((n - 1 - k) * p == -p) by (nonlinear_arith)
            requires
                n - 1 - k == -1,
        ;
    }
}

/// Every admitted check moves the arrival time on by at least one period,
/// and no admitted check moves it further than one window ahead of its own
/// instant.
proof fn lemma_admitted_move_arrival(
    state: Option<u64>,
    instants: Seq<u64>,
    first: u64,
    last: u64,
    quota: Quota,
)
    requires
        quota.wf(),
        forall|i: int|
            0 <= i < instants.len() ==> first <= #[trigger] instants[i] && instants[i] <= last,
    ensures
        admitted_of(state, instants, quota) >= 1 ==> {
            &&& after_all(state, instants, quota) matches Some(tat)
            &&& counted_at(first, quota) + admitted_of(state, instants, quota)
                * quota.spec_period() <= tat
            &&& tat <= counted_at(last, quota) + quota.spec_window()
        },
    decreases instants.len(),
{
    if instants.len() > 0 {
        let earlier = instants.drop_last();
        let before = after_all(state, earlier, quota);
        let count = admitted_of(state, earlier, quota) as int;
        let now = instants.last();
        let p = quota.spec_period() as int;
        lemma_admitted_move_arrival(state, earlier, first, last, quota);
        lemma_decision_bounds(before, now, quota);
        lemma_counted_at(first, now, quota);
        lemma_counted_at(now, last, quota);
        if conforms(before, now, quota) {
            assert((count + 1) * p == count * p + p) by (nonlinear_arith);
            if count == 0 {
                assert(count * p == 0) by (nonlinear_arith)
                    requires
                        count == 0,
                ;
            }
        }
    }
}

/// No run of checks admits more than the quota allows, whatever the instants
/// and whatever the bucket held: of the checks that fall between `first` and
/// `last`, in any order, at most one burst is admitted and one more check for
/// every period between `first` and `last`.
pub proof fn lemma_admissions_bounded(
    state: Option<u64>,
    instants: Seq<u64>,
    first: u64,
    last: u64,
    quota: Quota,
)
    requires
        quota.wf(),
        first <= last,
        forall|i: int|
            0 <= i < instants.len() ==> first <= #[trigger] instants[i] && instants[i] <= last,
    ensures
        admitted_of(state, instants, quota) * quota.spec_period() <= (last - first)
            + quota.spec_window(),
        admitted_of(state, instants, quota) <= quota.spec_burst_size() + (last - first) / (
        quota.spec_period() as int),
{
    let count = admitted_of(state, instants, quota) as int;
    let p = quota.spec_period() as int;
    let n = quota.spec_burst_size() as int;
    let span = last - first;
    lemma_admitted_move_arrival(state, instants, first, last, quota);
    lemma_counted_at(first, last, quota);
    quota.lemma_window_bounds();
    if count == 0 {
        assert(count * p == 0) by (nonlinear_arith)
            requires
                count == 0,
        ;
    }
    assert(count * p <= span + n * p);
    lemma_div_pos_is_pos(span, p);
    if count > n {
        lemma_mul_is_distributive_sub_other_way(p, count, n);
        assert((count - n) * p <= span);
        assert((count - n) * p >= 0) by (nonlinear_arith)
            requires
                count - n >= 0,
                p >= 0,
        ;
        lemma_div_is_ordered((count - n) * p, span, p);
        lemma_div_by_multiple(count - n, p);
    }
}

/// A denied check says exactly how long to wait: with no other check in
/// between, a check of the same key up to the horizon is admitted from
/// `retry_after` later on, and denied before.
pub proof fn lemma_retry_after_is_exact(state: Option<u64>, now: u64, later: u64, quota: Quota)
    requires
        quota.wf(),
        !conforms(state, now, quota),
        now <= later <= quota.spec_horizon(),
    ensures
        conforms(state, later, quota) <==> later >= allow_at(state, now, quota),
        decision_for(state, now, quota) == (Decision::Denied {
            retry_after: (allow_at(state, now, quota) - now) as u64,
            limit: quota.spec_burst_size(),
        }),
{
    quota.lemma_window_bounds();
}

/// One period after an admitted check, and up to the horizon, the same key
/// is admitted again.
pub proof fn lemma_unit_replenished(state: Option<u64>, now: u64, later: u64, quota: Quota)
    requires
        quota.wf(),
        conforms(state, now, quota),
        now + quota.spec_period() <= later <= quota.spec_horizon(),
    ensures
        conforms(state_after(state, now, quota), later, quota),
{
    quota.lemma_window_bounds();
}

/// One window after its last check, and up to the horizon, a bucket is full:
/// it admits a whole burst, and denies the check after it for one period.
pub proof fn lemma_fully_replenished(
    state: Option<u64>,
    last: u64,
    now: u64,
    quota: Quota,
    done: nat,
)
    requires
        quota.wf(),
        within_capacity(state, last, quota),
        last + quota.spec_window() <= now <= quota.spec_horizon(),
        done <= quota.spec_burst_size(),
    ensures
        is_full(state, now, quota),
        done < quota.spec_burst_size() ==> decision_for(
            after_checks(state, now, quota, done),
            now,
            quota,
        ) == (Decision::Admitted {
            remaining: (quota.spec_burst_size() - 1 - done) as u32,
            limit: quota.spec_burst_size(),
            reset_after: ((done + 1) * quota.spec_period()) as u64,
        }),
        done == quota.spec_burst_size() ==> decision_for(
            after_checks(state, now, quota, done),
            now,
            quota,
        ) == (Decision::Denied {
            retry_after: quota.spec_period(),
            limit: quota.spec_burst_size(),
        }),
{
    lemma_counted_at(last, now, quota);
    lemma_burst(state, now, quota, done);
}

/// A bucket that has seen any checks, none later than `last`, is full one
/// window after `last`, up to the horizon: it admits a whole burst, and
/// denies the check after it for one period.
pub proof fn lemma_fully_replenished_after_checks(
    instants: Seq<u64>,
    last: u64,
    now: u64,
    quota: Quota,
    done: nat,
)
    requires
        quota.wf(),
        forall|i: int| 0 <= i < instants.len() ==> #[trigger] instants[i] <= last,
        last + quota.spec_window() <= now <= quota.spec_horizon(),
        done <= quota.spec_burst_size(),
    ensures
        done < quota.spec_burst_size() ==> decision_for(
            after_checks(after_all(None, instants, quota), now, quota, done),
            now,
            quota,
        ) == (Decision::Admitted {
            remaining: (quota.spec_burst_size() - 1 - done) as u32,
            limit: quota.spec_burst_size(),
            reset_after: ((done + 1) * quota.spec_period()) as u64,
        }),
        done == quota.spec_burst_size() ==> decision_for(
            after_checks(after_all(None, instants, quota), now, quota, done),
            now,
            quota,
        ) == (Decision::Denied {
            retry_after: quota.spec_period(),
            limit: quota.spec_burst_size(),
        }),
{
    lemma_checks_keep_capacity(None, instants, last, quota);
    lemma_fully_replenished(after_all(None, instants, quota), last, now, quota, done);
}

} // verus!
