//! What holds of settlement whatever the pool: stated over the model of the
//! pool and proved from its definitions.

use vstd::prelude::*;
use crate::errors::ErrorCode;
use crate::pool::{lemma_accrued_grows, PoolView};

verus! {

/// The reward funded for the days from `from` up to, not including, `to`.
pub open spec fn funded_between(v: PoolView, from: int, to: int) -> int
    decreases to - from,
{
    if to <= from {
        0
    } else {
        funded_between(v, from, to - 1) + v.reward_on(to - 1)
    }
}

/// Settling a second time up to the same day changes nothing: the second
/// settlement is accepted and leaves the pool as the first left it.
pub proof fn law_settle_twice_is_settle_once(v: PoolView, day: u64)
    requires
        !v.settle_fails(day as int),
    ensures
        !v.settled(day as int).settle_fails(day as int),
        v.settled(day as int).settled(day as int) == v.settled(day as int),
{
}

/// A settlement with no day elapsed since the last one is accepted and
/// leaves the pool untouched.
pub proof fn law_settle_without_elapsed_day(v: PoolView, day: int)
    requires
        day <= v.last_update_calc_reward_nft_index,
    ensures
        !v.settle_fails(day),
        v.settled(day) == v,
{
}

/// An accepted settlement never lowers the accumulator.
pub proof fn law_accumulator_never_falls(v: PoolView, day: int)
    requires
        !v.settle_fails(day),
    ensures
        v.settled(day).cumulative_reward_per_nft >= v.cumulative_reward_per_nft,
{
    lemma_accrued_grows(v, day, day);
}

/// After a settlement over at least one day the window starts at the day up
/// to which the accumulator is settled, and it is empty.
pub proof fn law_window_starts_where_settled(v: PoolView, day: u64)
    requires
        v.last_update_calc_reward_nft_index < day,
    ensures
        v.settled(day as int).last_update_calc_reward_nft_index == day,
        v.settled(day as int).staked_counts_start_day == day,
        v.settled(day as int).staked_counts.len() == 0,
        v.settled(day as int).total_staked_at_window_start == v.total_staked,
{
}

/// Once a stake or an unstake has gone through, the window holds for its
/// day the number of NFTs now staked.
pub proof fn law_today_holds_the_total(v: PoolView, day: u64, total: u64)
    requires
        v.settled(day as int).record_outcome(day as int) is Ok,
        total <= u32::MAX,
    ensures
        v.restaked(day as int, total).total_staked == total,
        v.restaked(day as int, total).recorded_on(day as int) == total,
{
}

/// With one NFT staked on every day settled, nothing is lost to rounding:
/// the accumulator gains exactly what was funded for those days.
pub proof fn law_single_staker_earns_all(v: PoolView, day: int)
    requires
        forall|d: int| v.last_update_calc_reward_nft_index <= d < day ==> v.count_on(d) == 1,
    ensures
        v.accrued(day) == funded_between(v, v.last_update_calc_reward_nft_index as int, day),
    decreases day - v.last_update_calc_reward_nft_index,
{
    if day > v.last_update_calc_reward_nft_index {
        law_single_staker_earns_all(v, day - 1);
        assert(v.count_on(day - 1) == 1);
    }
}

/// With the same number of NFTs staked on every day settled, and the same
/// reward funded for each of those days, every day adds the same share.
pub proof fn law_constant_days_add_up(v: PoolView, day: int, count: int, per_day: int)
    requires
        v.last_update_calc_reward_nft_index <= day,
        count > 0,
        forall|d: int|
            v.last_update_calc_reward_nft_index <= d < day ==> v.count_on(d) == count
                && v.reward_on(d) == per_day,
    ensures
        v.accrued(day) == (day - v.last_update_calc_reward_nft_index) * (per_day / count),
        funded_between(v, v.last_update_calc_reward_nft_index as int, day) == (day
            - v.last_update_calc_reward_nft_index) * per_day,
    decreases day - v.last_update_calc_reward_nft_index,
{
    let last = v.last_update_calc_reward_nft_index as int;
    if day > last {
        law_constant_days_add_up(v, day - 1, count, per_day);
        assert(v.count_on(day - 1) == count && v.reward_on(day - 1) == per_day);
        let share = per_day / count;
        assert((day - last) * share == (day - 1 - last) * share + share) by (nonlinear_arith);
        assert((day - last) * per_day == (day - 1 - last) * per_day + per_day)
            by (nonlinear_arith);
    } else {
        assert((day - last) * (per_day / count) == 0 && (day - last) * per_day == 0)
            by (nonlinear_arith)
            requires
                day == last,
        ;
    }
}

/// Two NFTs staked throughout the days that `add_reward` funded, on a pool
/// whose schedule ended at the first day to settle: each day adds half of
/// that day's reward, rounded down, to the accumulator, so two entries with
/// the same baseline are owed the same, and what the two are paid together
/// falls short of what was funded by at most one unit for each day.
pub proof fn law_two_stakers_share_evenly(v: PoolView, amount: u64, num_epochs: u64)
    requires
        num_epochs > 0,
        v.rewards_per_epoch.len() == v.last_update_calc_reward_nft_index,
        forall|d: int|
            v.last_update_calc_reward_nft_index <= d < v.last_update_calc_reward_nft_index
                + num_epochs ==> v.count_on(d) == 2,
    ensures
        ({
            let w = v.funded(amount, num_epochs);
            let end = v.last_update_calc_reward_nft_index + num_epochs;
            let paid_each = w.accrued(end);
            let funded = funded_between(w, v.last_update_calc_reward_nft_index as int, end);
            &&& paid_each == num_epochs * ((amount / num_epochs) / 2)
            &&& funded == num_epochs * (amount / num_epochs)
            &&& 0 <= funded - 2 * paid_each <= num_epochs
        }),
{
    let w = v.funded(amount, num_epochs);
    let last = v.last_update_calc_reward_nft_index as int;
    let end = last + num_epochs;
    let per_day = (amount / num_epochs) as int;
    assert forall|d: int| last <= d < end implies w.count_on(d) == 2 && w.reward_on(d)
        == per_day by {
        lemma_count_ignores_schedule(v, w, d);
    }
    law_constant_days_add_up(w, end, 2, per_day);
    let half = per_day / 2;
    let n = num_epochs as int;
    assert(0 <= n * per_day - 2 * (n * half) <= n) by (nonlinear_arith)
        requires
            0 <= per_day - 2 * half <= 1,
            n > 0,
    ;
}

/// The count in force on a day does not depend on what was funded.
pub proof fn lemma_count_ignores_schedule(v: PoolView, w: PoolView, day: int)
    requires
        w == (PoolView { rewards_per_epoch: w.rewards_per_epoch, ..v }),
    ensures
        w.count_on(day) == v.count_on(day),
    decreases day - v.last_update_calc_reward_nft_index + 1,
{
    if day >= v.last_update_calc_reward_nft_index {
        lemma_count_ignores_schedule(v, w, day - 1);
        assert(w.recorded_on(day) == v.recorded_on(day));
    }
}

/// A day on which no NFT is staked adds nothing to the accumulator, whatever
/// was funded for it: that reward goes to nobody.
pub proof fn law_unstaked_day_adds_nothing(v: PoolView, day: int)
    requires
        v.last_update_calc_reward_nft_index <= day,
        v.count_on(day) == 0,
    ensures
        v.share_on(day) == 0,
        v.accrued(day + 1) == v.accrued(day),
{
}

/// Where the window carries a count of zero and has no record but zero, no
/// NFT is staked on any day, and a settlement is accepted and leaves the
/// accumulator where it was, whatever was funded.
pub proof fn law_empty_pool_earns_nothing(v: PoolView, day: int)
    requires
        v.total_staked_at_window_start == 0,
        forall|i: int| 0 <= i < v.staked_counts.len() ==> v.staked_counts[i] == 0,
        v.staked_counts_start_day <= v.last_update_calc_reward_nft_index,
    ensures
        v.count_on(day) == 0,
        v.accrued(day) == 0,
        !v.settle_fails(day),
        v.settled_reward(day) == v.cumulative_reward_per_nft,
    decreases day - v.last_update_calc_reward_nft_index + 1,
{
    if day >= v.last_update_calc_reward_nft_index {
        law_empty_pool_earns_nothing(v, day - 1);
        assert(v.recorded_on(day) == 0);
    }
}

/// Funding ahead never touches a day that is funded already: the reward of
/// each earlier day stays, each new day gets an equal part, and the days
/// beyond stay unfunded.
pub proof fn law_funding_keeps_funded_days(v: PoolView, amount: u64, num_epochs: u64, day: int)
    requires
        num_epochs > 0,
    ensures
        v.funded(amount, num_epochs).reward_on(day) == if v.rewards_per_epoch.len() <= day
            < v.rewards_per_epoch.len() + num_epochs {
            (amount / num_epochs) as int
        } else {
            v.reward_on(day)
        },
{
}

/// A top-up changes the reward of its day alone, and leaves the schedule
/// within its capacity.
pub proof fn law_top_up_changes_one_day(v: PoolView, amount: u64, today: int, day: int)
    requires
        0 <= today < 1200,
        v.reward_on(today) + amount <= u64::MAX,
    ensures
        v.rewards_per_epoch.len() <= 1200 ==> v.topped_up(amount, today).rewards_per_epoch.len()
            <= 1200,
        v.topped_up(amount, today).reward_on(day) == if day == today {
            v.reward_on(day) + amount
        } else {
            v.reward_on(day)
        },
{
}

/// In a consistent pool, on a clock that does not run backwards, the count
/// of today always finds its place in the window: staking is refused neither
/// for a full window nor for a day before it.
pub proof fn law_settled_window_has_room(v: PoolView, day: u64)
    requires
        v.consistent(),
        v.last_update_calc_reward_nft_index <= day,
    ensures
        v.settled(day as int).record_outcome(day as int) is Ok,
        v.settled(day as int).consistent(),
{
}

/// Carry-forward reproduces the true count: once a stake or an unstake has
/// left `total` NFTs staked, at least one, and recorded that for its day,
/// `total` is the count in force on that day and on every later day, until
/// the next record.
pub proof fn law_count_follows_total(v: PoolView, day: u64, total: u64, later: int)
    requires
        v.consistent(),
        v.last_update_calc_reward_nft_index <= day <= later,
        0 < total <= u32::MAX,
    ensures
        v.restaked(day as int, total).consistent(),
        v.restaked(day as int, total).count_on(later) == total,
    decreases later - day,
{
    let w = v.restaked(day as int, total);
    assert(w.staked_counts.len() == 1 && w.staked_counts[0] == total);
    if later > day {
        law_count_follows_total(v, day, total, later - 1);
        assert(w.recorded_on(later) == 0);
    } else {
        assert(w.recorded_on(day as int) == total);
    }
}

/// The window takes a record for each of the 365 days from its start, and
/// keeps refusing the day after them with `MaxStakedCountsExceeded` however
/// many records were written: only a settlement moves its start.
pub proof fn law_window_holds_a_year(v: PoolView, day: int, count: u32)
    requires
        v.record_outcome(day) is Ok,
    ensures
        forall|d: int|
            v.staked_counts_start_day <= d < v.staked_counts_start_day + 365 ==> v.recorded(
                day,
                count,
            ).record_outcome(d) is Ok,
        forall|d: int|
            d >= v.staked_counts_start_day + 365 ==> v.recorded(day, count).record_outcome(d)
                == Err::<(), ErrorCode>(ErrorCode::MaxStakedCountsExceeded),
{
}

/// After a settlement over at least one day the window is empty, so the
/// number of NFTs staked at the settlement is the count in force from then on.
pub proof fn lemma_settled_counts_total(v: PoolView, upto: u64, day: int)
    requires
        v.last_update_calc_reward_nft_index < upto,
    ensures
        v.settled(upto as int).count_on(day) == v.total_staked,
    decreases day - upto + 1,
{
    let w = v.settled(upto as int);
    if day >= upto {
        lemma_settled_counts_total(v, upto, day - 1);
        assert(w.recorded_on(day) == 0);
    }
}

/// The shares of the days from `from` on add up the same in a pool `w` that
/// is settled up to `from` and agrees with `v` on the reward and the count
/// of each later day.
pub proof fn lemma_accrued_splits(v: PoolView, w: PoolView, from: int, day: int)
    requires
        v.last_update_calc_reward_nft_index <= from <= day,
        w.last_update_calc_reward_nft_index == from,
        w.rewards_per_epoch == v.rewards_per_epoch,
        forall|d: int| from <= d < day ==> w.count_on(d) == v.count_on(d),
    ensures
        v.accrued(day) == v.accrued(from) + w.accrued(day),
    decreases day - from,
{
    if day > from {
        lemma_accrued_splits(v, w, from, day - 1);
        assert(w.count_on(day - 1) == v.count_on(day - 1));
        assert(w.reward_on(day - 1) == v.reward_on(day - 1));
    }
}

/// Settling in two steps gives what settling in one gives: where the count
/// in force on each day after the first step is the number of NFTs staked,
/// a settlement up to `first` followed by one up to `day` leaves the pool
/// as a single settlement up to `day` does, and both are accepted where the
/// single one is. No day's share is skipped or counted twice, whichever
/// operation settles which part.
pub proof fn law_settle_in_steps(v: PoolView, first: u64, day: u64)
    requires
        v.last_update_calc_reward_nft_index <= first <= day,
        !v.settle_fails(day as int),
        forall|d: int| first <= d < day ==> v.count_on(d) == v.total_staked,
    ensures
        !v.settle_fails(first as int),
        !v.settled(first as int).settle_fails(day as int),
        v.settled(first as int).settled(day as int) == v.settled(day as int),
        v.settled(first as int).settled_reward(day as int) == v.settled_reward(day as int),
{
    let last = v.last_update_calc_reward_nft_index;
    lemma_accrued_grows(v, first as int, day as int);
    if last < first {
        let w = v.settled(first as int);
        assert forall|d: int| first <= d < day implies w.count_on(d) == v.count_on(d) by {
            lemma_settled_counts_total(v, first, d);
        }
        lemma_accrued_splits(v, w, first as int, day as int);
    }
}

/// What a run of claims at the days `days` pays in all to an entry whose
/// baseline is `skipped` at its start. A claim that finds reward owed
/// settles the pool up to its day, pays the accumulator less the baseline,
/// and moves the baseline to the accumulator; one that finds nothing owed is
/// refused and changes nothing.
pub open spec fn paid_over(v: PoolView, skipped: int, days: Seq<u64>) -> int
    decreases days.len(),
{
    if days.len() == 0 {
        0
    } else {
        let day = days[0] as int;
        let owed = v.settled_reward(day) - skipped;
        if owed > 0 {
            owed + paid_over(v.settled(day), v.settled_reward(day), days.drop_first())
        } else {
            paid_over(v, skipped, days.drop_first())
        }
    }
}

/// A run of claims pays in all what a single claim at its last day would
/// pay: the accumulator as settled up to that day, less the baseline at the
/// start of the run. This holds where the number of NFTs staked does not
/// change during the run and is the count in force on each of its days.
/// An unstake pays what a claim on its day would, so the run may end in one.
pub proof fn law_claims_add_up(v: PoolView, skipped: int, days: Seq<u64>)
    requires
        days.len() > 0,
        skipped <= v.cumulative_reward_per_nft,
        v.last_update_calc_reward_nft_index <= days[0],
        forall|i: int, j: int| 0 <= i <= j < days.len() ==> days[i] <= days[j],
        !v.settle_fails(days.last() as int),
        forall|d: int| days[0] <= d < days.last() ==> v.count_on(d) == v.total_staked,
    ensures
        paid_over(v, skipped, days) == v.settled_reward(days.last() as int) - skipped,
    decreases days.len(),
{
    let first = days[0];
    let rest = days.drop_first();
    let owed = v.settled_reward(first as int) - skipped;
    lemma_accrued_grows(v, first as int, first as int);
    if rest.len() == 0 {
        assert(paid_over(v.settled(first as int), v.settled_reward(first as int), rest) == 0);
        assert(paid_over(v, skipped, rest) == 0);
    } else {
        assert(rest.last() == days.last());
        assert(rest[0] == days[1]);
        assert forall|i: int, j: int| 0 <= i <= j < rest.len() implies rest[i] <= rest[j] by {
            assert(rest[i] == days[i + 1] && rest[j] == days[j + 1]);
        }
        if owed > 0 {
            let w = v.settled(first as int);
            law_settle_in_steps(v, first, days.last());
            assert forall|d: int| rest[0] <= d < rest.last() implies w.count_on(d)
                == w.total_staked by {
                if v.last_update_calc_reward_nft_index < first {
                    lemma_settled_counts_total(v, first, d);
                }
            }
            law_claims_add_up(w, v.settled_reward(first as int), rest);
        } else {
            law_claims_add_up(v, skipped, rest);
            lemma_accrued_grows(v, first as int, days.last() as int);
        }
    }
}

/// With a single NFT staked from the last settlement to the end of a run of
/// claims, the claims of its entry pay in all exactly what was funded for
/// those days: nothing is lost to rounding, however the claims are spread.
pub proof fn law_single_staker_is_paid_all(v: PoolView, days: Seq<u64>)
    requires
        days.len() > 0,
        v.last_update_calc_reward_nft_index <= days[0],
        forall|i: int, j: int| 0 <= i <= j < days.len() ==> days[i] <= days[j],
        !v.settle_fails(days.last() as int),
        v.total_staked == 1,
        forall|d: int|
            v.last_update_calc_reward_nft_index <= d < days.last() ==> v.count_on(d) == 1,
    ensures
        paid_over(v, v.cumulative_reward_per_nft as int, days) == funded_between(
            v,
            v.last_update_calc_reward_nft_index as int,
            days.last() as int,
        ),
{
    law_claims_add_up(v, v.cumulative_reward_per_nft as int, days);
    law_single_staker_earns_all(v, days.last() as int);
}

/// In a consistent pool the count in force on the settled day stays in force
/// on every later day: the window holds no later record.
pub proof fn lemma_count_stays(v: PoolView, day: int)
    requires
        v.consistent(),
        v.last_update_calc_reward_nft_index <= day,
    ensures
        v.count_on(day) == v.count_on(v.last_update_calc_reward_nft_index as int),
    decreases day - v.last_update_calc_reward_nft_index,
{
    if day > v.last_update_calc_reward_nft_index {
        lemma_count_stays(v, day - 1);
        assert(v.recorded_on(day) == 0);
    }
}

/// What was funded for a span of days is what was funded for its two parts.
pub proof fn lemma_funded_splits(v: PoolView, from: int, mid: int, to: int)
    requires
        from <= mid <= to,
    ensures
        funded_between(v, from, to) == funded_between(v, from, mid) + funded_between(v, mid, to),
    decreases to - mid,
{
    if to > mid {
        lemma_funded_splits(v, from, mid, to - 1);
    }
}

/// What was funded for a span of days depends on the rewards of those days
/// alone.
pub proof fn lemma_funded_by_days(v: PoolView, w: PoolView, from: int, to: int)
    requires
        forall|d: int| from <= d < to ==> v.reward_on(d) == w.reward_on(d),
    ensures
        funded_between(v, from, to) == funded_between(w, from, to),
    decreases to - from,
{
    if to > from {
        lemma_funded_by_days(v, w, from, to - 1);
    }
}

/// The pool has had a single NFT staked since day `since`, when the
/// accumulator stood at `base`, and has lost none of the reward funded for
/// the days settled since; the entry of that NFT has the baseline `skipped`
/// and has been paid `paid` in all.
pub open spec fn sole_staker(v: PoolView, since: int, base: int, skipped: int, paid: int) -> bool {
    let last = v.last_update_calc_reward_nft_index as int;
    &&& v.consistent()
    &&& v.total_staked == 1
    &&& v.count_on(last) == 1
    &&& since <= last
    &&& v.cumulative_reward_per_nft - base == funded_between(v, since, last)
    &&& skipped - base == paid
    &&& skipped <= v.cumulative_reward_per_nft
}

/// The first stake into an empty pool starts a run with a single staker:
/// the new entry has been paid nothing, and its baseline is the accumulator.
pub proof fn law_sole_staker_joins(v: PoolView, day: u64)
    requires
        v.consistent(),
        v.total_staked == 0,
        v.last_update_calc_reward_nft_index <= day,
        !v.settle_fails(day as int),
    ensures
        v.settled(day as int).record_outcome(day as int) is Ok,
        sole_staker(
            v.restaked(day as int, 1),
            day as int,
            v.settled_reward(day as int),
            v.settled_reward(day as int),
            0,
        ),
{
    let w = v.restaked(day as int, 1);
    lemma_accrued_grows(v, day as int, day as int);
    assert(w.staked_counts.len() == 1 && w.staked_counts[0] == 1);
    assert(w.recorded_on(day as int) == 1);
}

/// A settlement keeps a run with a single staker going: the accumulator
/// gains exactly what was funded for the days it settles.
pub proof fn law_sole_staker_settles(
    v: PoolView,
    since: int,
    base: int,
    skipped: int,
    paid: int,
    day: u64,
)
    requires
        sole_staker(v, since, base, skipped, paid),
        !v.settle_fails(day as int),
    ensures
        sole_staker(v.settled(day as int), since, base, skipped, paid),
        v.last_update_calc_reward_nft_index <= day ==> v.settled_reward(day as int) - base
            == funded_between(v, since, day as int),
{
    let last = v.last_update_calc_reward_nft_index as int;
    let w = v.settled(day as int);
    if last <= day {
        assert forall|d: int| last <= d < day implies v.count_on(d) == 1 by {
            lemma_count_stays(v, d);
        }
        law_single_staker_earns_all(v, day as int);
        lemma_funded_splits(v, since, last, day as int);
        lemma_accrued_grows(v, day as int, day as int);
        if last < day {
            lemma_settled_counts_total(v, day, day as int);
            lemma_funded_by_days(v, w, since, day as int);
        }
    }
}

/// Conservation for a single staker, claim by claim: whatever was claimed
/// before, a claim on a day not before the settled one finds owed exactly
/// what was funded since the NFT was staked and has not been paid yet. Where
/// that is nothing the claim is refused and all that was funded is paid
/// already; where it is something, the payout brings the total paid up to
/// all that was funded, and the run goes on from the settled pool with the
/// baseline at the accumulator. An unstake pays the same amount.
pub proof fn law_sole_staker_claims(
    v: PoolView,
    since: int,
    base: int,
    skipped: u64,
    paid: int,
    now: i64,
)
    requires
        sole_staker(v, since, base, skipped as int, paid),
        v.last_update_calc_reward_nft_index <= v.day_at(now),
        !v.settle_fails(v.day_at(now)),
    ensures
        v.owed(skipped, now) >= 0,
        paid + v.owed(skipped, now) == funded_between(v, since, v.day_at(now)),
        sole_staker(
            v.settled(v.day_at(now)),
            since,
            base,
            v.settled_reward(v.day_at(now)),
            paid + v.owed(skipped, now),
        ),
{
    let day = v.day_at(now);
    assert(0 <= day <= u64::MAX) by {
        assert(day == (now - v.start_staking_timestamp) / 86400 || day == 0);
    }
    law_sole_staker_settles(v, since, base, skipped as int, paid, day as u64);
    lemma_accrued_grows(v, day, day);
}

/// Funding ahead of the settled day keeps a run with a single staker going.
pub proof fn law_sole_staker_funded_ahead(
    v: PoolView,
    since: int,
    base: int,
    skipped: int,
    paid: int,
    amount: u64,
    num_epochs: u64,
)
    requires
        sole_staker(v, since, base, skipped, paid),
        v.add_reward_outcome(v.admin, amount, num_epochs) is Ok,
        v.last_update_calc_reward_nft_index <= v.rewards_per_epoch.len(),
    ensures
        sole_staker(v.funded(amount, num_epochs), since, base, skipped, paid),
{
    let w = v.funded(amount, num_epochs);
    let last = v.last_update_calc_reward_nft_index as int;
    lemma_count_ignores_schedule(v, w, last);
    lemma_funded_by_days(v, w, since, last);
}

/// A top-up of a day that is not settled yet keeps a run with a single
/// staker going.
pub proof fn law_sole_staker_topped_up(
    v: PoolView,
    since: int,
    base: int,
    skipped: int,
    paid: int,
    amount: u64,
    today: int,
)
    requires
        sole_staker(v, since, base, skipped, paid),
        v.top_up_outcome(v.admin, amount, today) is Ok,
        v.last_update_calc_reward_nft_index <= today,
    ensures
        sole_staker(v.topped_up(amount, today), since, base, skipped, paid),
{
    let w = v.topped_up(amount, today);
    let last = v.last_update_calc_reward_nft_index as int;
    lemma_count_ignores_schedule(v, w, last);
    lemma_funded_by_days(v, w, since, last);
}

} // verus!
