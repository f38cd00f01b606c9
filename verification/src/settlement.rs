//! Settlement: folding the reward of the elapsed days into the accumulator,
//! and the window of daily staked counts that it reads.

use vstd::prelude::*;
use crate::errors::ErrorCode;
use crate::pool::{lemma_accrued_grows, Pool, PoolView};

verus! {

impl PoolView {
    /// The pool after the count of `day` was written into the window: the
    /// window reaches at least to `day`, holds `count` there, keeps its other
    /// records, and holds zero on the days it had to grow over.
    pub open spec fn recorded(self, day: int, count: u32) -> PoolView {
        let slot = day - self.staked_counts_start_day;
        let old_len = self.staked_counts.len() as int;
        let new_len = if slot < old_len { old_len } else { slot + 1 };
        PoolView {
            staked_counts: Seq::new(
                new_len as nat,
                |i: int|
                    if i == slot {
                        count
                    } else if i < old_len {
                        self.staked_counts[i]
                    } else {
                        0u32
                    },
            ),
            ..self
        }
    }

    /// The pool after its window was emptied to start at `new_start`, with
    /// `carry` as the count in force before any record.
    pub open spec fn compacted(self, new_start: u64, carry: u64) -> PoolView {
        PoolView {
            staked_counts: Seq::empty(),
            staked_counts_start_day: new_start,
            total_staked_at_window_start: carry,
            ..self
        }
    }
}

/// The day that holds `now`, counted from the start of staking: whole days
/// elapsed, and day 0 before the start.
pub fn get_current_day(pool: &Pool, now: i64) -> (day: u64)
    ensures
        day == pool@.day_at(now),
{
    if now < pool.start_staking_timestamp {
        return 0;
    }
    let elapsed: i128 = now as i128 - pool.start_staking_timestamp as i128;
    let days: i128 = elapsed / 86400;
    assert(0 <= days <= elapsed);
    days as u64
}

impl Pool {
    /// Most days that the window of staked counts can hold.
    pub const MAX_STAKED_COUNTS_WINDOW_DAYS: usize = 365;

    /// The reward funded for `day`, zero beyond the funded range.
    pub fn reward_for_day(&self, day: u64) -> (r: u64)
        ensures
            r == self@.reward_on(day as int),
    {
        if day < self.rewards_per_epoch.len() as u64 {
            self.rewards_per_epoch[day as usize]
        } else {
            0
        }
    }

    /// The count in force on `day`: the one recorded for it where that is not
    /// zero, else `carry`, the count in force on the day before.
    fn staked_count_for_day(&self, day: u64, carry: u64) -> (r: u64)
        ensures
            r == if self@.recorded_on(day as int) > 0 {
                self@.recorded_on(day as int)
            } else {
                carry as int
            },
    {
        if day >= self.staked_counts_start_day {
            let slot: u64 = day - self.staked_counts_start_day;
            if slot < self.staked_counts.len() as u64 {
                let recorded: u32 = self.staked_counts[slot as usize];
                if recorded > 0 {
                    return recorded as u64;
                }
            }
        }
        carry
    }

    /// The accumulator as a settlement up to `day` would leave it. The pool
    /// is only read.
    ///
    /// Refused with `RewardCalculationError` exactly where a day has elapsed
    /// and the window starts after the first day to settle, or the sum leaves
    /// the range of `u64`.
    pub fn settled_reward_per_nft(&self, day: u64) -> (r: Result<u64, ErrorCode>)
        ensures
            r is Err <==> self@.settle_fails(day as int),
            r is Err ==> r == Err::<u64, ErrorCode>(ErrorCode::RewardCalculationError),
            r is Ok ==> r->Ok_0 == self@.settled_reward(day as int),
    {
        let last: u64 = self.last_update_calc_reward_nft_index;
        if last >= day {
            return Ok(self.cumulative_reward_per_nft);
        }
        if last < self.staked_counts_start_day {
            return Err(ErrorCode::RewardCalculationError);
        }
        let mut d: u64 = last;
        let mut carry: u64 = self.total_staked_at_window_start;
        let mut acc: u64 = self.cumulative_reward_per_nft;
        while d < day
            invariant
                last == self.last_update_calc_reward_nft_index,
                last <= d <= day,
                carry == self@.count_on(d - 1),
                acc == self@.cumulative_reward_per_nft + self@.accrued(d as int),
            decreases day - d,
        {
            let reward: u64 = self.reward_for_day(d);
            carry = self.staked_count_for_day(d, carry);
            assert(carry == self@.count_on(d as int));
            if carry > 0 {
                let share: u64 = reward / carry;
                match acc.checked_add(share) {
                    Some(sum) => {
                        acc = sum;
                    },
                    None => {
                        proof {
                            lemma_accrued_grows(self@, d + 1, day as int);
                        }
                        return Err(ErrorCode::RewardCalculationError);
                    },
                }
            }
            d += 1;
        }
        Ok(acc)
    }

    /// Empties the window, lets it start at `new_start`, and fixes `carry` as
    /// the count in force until the first record.
    pub fn compact_window(&mut self, new_start: u64, carry: u64)
        ensures
            final(self)@ == old(self)@.compacted(new_start, carry),
    {
        self.staked_counts.clear();
        self.staked_counts_start_day = new_start;
        self.total_staked_at_window_start = carry;
    }

    /// Writes `count` as the count of `day` into the window, growing it with
    /// zeros up to that day where needed.
    ///
    /// Refused with `RewardCalculationError` where `day` lies before the
    /// window, and with `MaxStakedCountsExceeded` where it lies
    /// `MAX_STAKED_COUNTS_WINDOW_DAYS` days or more after its start.
    pub fn record_staked_count(&mut self, day: u64, count: u32) -> (r: Result<(), ErrorCode>)
        ensures
            r == old(self)@.record_outcome(day as int),
            r is Ok ==> final(self)@ == old(self)@.recorded(day as int, count),
            r is Err ==> final(self)@ == old(self)@,
            old(self)@.consistent() && day == old(self).staked_counts_start_day
                ==> final(self)@.consistent(),
    {
        if day < self.staked_counts_start_day {
            return Err(ErrorCode::RewardCalculationError);
        }
        let slot: u64 = day - self.staked_counts_start_day;
        if slot >= Self::MAX_STAKED_COUNTS_WINDOW_DAYS as u64 {
            return Err(ErrorCode::MaxStakedCountsExceeded);
        }
        let at: usize = slot as usize;
        while self.staked_counts.len() <= at
            invariant
                at < 365,
                old(self).staked_counts.len() <= self.staked_counts.len(),
                self.staked_counts.len() == old(self).staked_counts.len() || (old(
                    self,
                ).staked_counts.len() <= at && self.staked_counts.len() <= at + 1),
                forall|i: int|
                    0 <= i < old(self).staked_counts.len() ==> self.staked_counts@[i] == old(
                        self,
                    ).staked_counts@[i],
                forall|i: int|
                    old(self).staked_counts.len() <= i < self.staked_counts.len()
                        ==> self.staked_counts@[i] == 0u32,
                self@ == (PoolView { staked_counts: self.staked_counts@, ..old(self)@ }),
            decreases at + 1 - self.staked_counts.len(),
        {
            self.staked_counts.push(0);
        }
        self.staked_counts[at] = count;
        assert(self.staked_counts@ =~= old(self)@.recorded(day as int, count).staked_counts);
        Ok(())
    }

    /// Folds the reward of the days before `day` that are not settled yet
    /// into the accumulator, then compacts the window to start at `day`,
    /// carrying the present number of staked NFTs.
    ///
    /// Nothing changes where no day has elapsed since the last settlement,
    /// nor where the settlement is refused.
    pub fn settle_until(&mut self, day: u64) -> (r: Result<(), ErrorCode>)
        ensures
            r is Err <==> old(self)@.settle_fails(day as int),
            r is Err ==> r == Err::<(), ErrorCode>(ErrorCode::RewardCalculationError),
            r is Err ==> final(self)@ == old(self)@,
            r is Ok ==> final(self)@ == old(self)@.settled(day as int),
            final(self).cumulative_reward_per_nft >= old(self).cumulative_reward_per_nft,
            old(self)@.consistent() ==> final(self)@.consistent(),
    {
        if self.last_update_calc_reward_nft_index >= day {
            return Ok(());
        }
        match self.settled_reward_per_nft(day) {
            Err(e) => Err(e),
            Ok(acc) => {
                proof {
                    lemma_accrued_grows(self@, day as int, day as int);
                }
                self.apply_settlement(day, acc);
                Ok(())
            },
        }
    }

    /// Stores the outcome of a settlement up to `day` that left the
    /// accumulator at `acc`.
    pub(crate) fn apply_settlement(&mut self, day: u64, acc: u64)
        requires
            old(self).last_update_calc_reward_nft_index < day,
            acc == old(self)@.settled_reward(day as int),
        ensures
            final(self)@ == old(self)@.settled(day as int),
    {
        self.cumulative_reward_per_nft = acc;
        let carry: u64 = self.total_staked;
        self.compact_window(day, carry);
        self.last_update_calc_reward_nft_index = day;
    }
}

impl PoolView {
    /// Whether a record for `day` is accepted, and the refusal where not.
    pub open spec fn record_outcome(self, day: int) -> Result<(), ErrorCode> {
        if day < self.staked_counts_start_day {
            Err(ErrorCode::RewardCalculationError)
        } else if day - self.staked_counts_start_day >= 365 {
            Err(ErrorCode::MaxStakedCountsExceeded)
        } else {
            Ok(())
        }
    }
}

/// Brings the accumulator up to the day that holds `now`: every operation
/// that reads the accumulator settles first.
pub fn update_skipped_reward(pool: &mut Pool, now: i64) -> (r: Result<(), ErrorCode>)
    ensures
        r is Err <==> old(pool)@.settle_fails(old(pool)@.day_at(now)),
        r is Err ==> r == Err::<(), ErrorCode>(ErrorCode::RewardCalculationError),
        r is Err ==> final(pool)@ == old(pool)@,
        r is Ok ==> final(pool)@ == old(pool)@.settled(old(pool)@.day_at(now)),
        final(pool).cumulative_reward_per_nft >= old(pool).cumulative_reward_per_nft,
        old(pool)@.consistent() ==> final(pool)@.consistent(),
{
    let day: u64 = get_current_day(pool, now);
    pool.settle_until(day)
}

} // verus!
