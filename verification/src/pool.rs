//! The pool: its stored state, the mathematical model of that state, and
//! what a day's reward is worth to one staked NFT.

use vstd::prelude::*;
use crate::keys::Key;

verus! {

/// The state of one staking pool.
///
/// `rewards_per_epoch[d]` is the reward funded for day `d`, counted from
/// `start_staking_timestamp`. `staked_counts[i]` is the number of NFTs
/// staked at the end of the last operation of day `staked_counts_start_day + i`,
/// or zero where that day saw none. `cumulative_reward_per_nft` is the reward
/// that one NFT staked since the start has earned over the days before
/// `last_update_calc_reward_nft_index`.
#[derive(Clone, Debug, PartialEq, Eq)]
pub struct Pool {
    pub admin: Key,
    pub reward_mint: Key,
    pub reward_vault: Key,
    pub allowed_collections: Vec<Key>,
    pub total_staked: u64,
    pub current_epoch: u64,
    pub last_update_time: i64,
    pub epoch_duration: i64,
    pub rewards_per_epoch: Vec<u64>,
    pub bump: u8,
    pub start_staking_timestamp: i64,
    pub cumulative_reward_per_nft: u64,
    pub last_update_calc_reward_nft_index: u64,
    pub staked_counts: Vec<u32>,
    pub staked_counts_start_day: u64,
    pub total_staked_at_window_start: u64,
}

/// The pool as a mathematical value: the vectors as sequences.
pub struct PoolView {
    pub admin: Key,
    pub reward_mint: Key,
    pub reward_vault: Key,
    pub allowed_collections: Seq<Key>,
    pub total_staked: u64,
    pub current_epoch: u64,
    pub last_update_time: i64,
    pub epoch_duration: i64,
    pub rewards_per_epoch: Seq<u64>,
    pub bump: u8,
    pub start_staking_timestamp: i64,
    pub cumulative_reward_per_nft: u64,
    pub last_update_calc_reward_nft_index: u64,
    pub staked_counts: Seq<u32>,
    pub staked_counts_start_day: u64,
    pub total_staked_at_window_start: u64,
}

impl View for Pool {
    type V = PoolView;

    open spec fn view(&self) -> PoolView {
        PoolView {
            admin: self.admin,
            reward_mint: self.reward_mint,
            reward_vault: self.reward_vault,
            allowed_collections: self.allowed_collections@,
            total_staked: self.total_staked,
            current_epoch: self.current_epoch,
            last_update_time: self.last_update_time,
            epoch_duration: self.epoch_duration,
            rewards_per_epoch: self.rewards_per_epoch@,
            bump: self.bump,
            start_staking_timestamp: self.start_staking_timestamp,
            cumulative_reward_per_nft: self.cumulative_reward_per_nft,
            last_update_calc_reward_nft_index: self.last_update_calc_reward_nft_index,
            staked_counts: self.staked_counts@,
            staked_counts_start_day: self.staked_counts_start_day,
            total_staked_at_window_start: self.total_staked_at_window_start,
        }
    }
}

/// Seconds in one day, the unit in which reward is funded.
pub const SECONDS_PER_DAY: i64 = 86400;

/// The day that holds the instant `now`, counted from `start`: whole days
/// elapsed, and day 0 for any instant before the start.
pub open spec fn day_of(start: i64, now: i64) -> int {
    if now < start {
        0
    } else {
        (now - start) / 86400
    }
}

impl PoolView {
    /// What holds of a new pool and of every pool that funding, staking,
    /// unstaking, claiming and settling have made of it: the schedule is
    /// within its capacity, the number of staked NFTs is one that the window
    /// can record, and the window starts at the day up to which the
    /// accumulator is settled and holds at most the record of that day.
    pub open spec fn consistent(self) -> bool {
        &&& self.rewards_per_epoch.len() <= 1200
        &&& self.total_staked <= u32::MAX
        &&& self.staked_counts_start_day == self.last_update_calc_reward_nft_index
        &&& self.staked_counts.len() <= 1
    }

    /// The reward funded for `day`: zero beyond what was funded.
    pub open spec fn reward_on(self, day: int) -> int {
        if 0 <= day < self.rewards_per_epoch.len() {
            self.rewards_per_epoch[day] as int
        } else {
            0
        }
    }

    /// The count recorded for `day` in the window: zero for a day outside it,
    /// and for one inside it on which nothing was recorded.
    pub open spec fn recorded_on(self, day: int) -> int {
        let slot = day - self.staked_counts_start_day;
        if 0 <= slot < self.staked_counts.len() {
            self.staked_counts[slot] as int
        } else {
            0
        }
    }

    /// The number of staked NFTs that shares the reward of `day`, as seen by a
    /// settlement that starts at `last_update_calc_reward_nft_index`: the
    /// count recorded for the latest day up to `day` that has a non-zero
    /// record, and `total_staked_at_window_start` where no such day exists.
    pub open spec fn count_on(self, day: int) -> int
        decreases day - self.last_update_calc_reward_nft_index + 1,
    {
        if day < self.last_update_calc_reward_nft_index {
            self.total_staked_at_window_start as int
        } else if self.recorded_on(day) > 0 {
            self.recorded_on(day)
        } else {
            self.count_on(day - 1)
        }
    }

    /// What `day` adds to the accumulator: its reward divided by its count,
    /// rounded down, and nothing on a day without a staked NFT.
    pub open spec fn share_on(self, day: int) -> int {
        let count = self.count_on(day);
        if count > 0 {
            self.reward_on(day) / count
        } else {
            0
        }
    }

    /// The sum of the shares of the days from
    /// `last_update_calc_reward_nft_index` up to, not including, `day`.
    pub open spec fn accrued(self, day: int) -> int
        decreases day - self.last_update_calc_reward_nft_index,
    {
        if day <= self.last_update_calc_reward_nft_index {
            0
        } else {
            self.accrued(day - 1) + self.share_on(day - 1)
        }
    }

    /// Whether a settlement up to `day` is refused: there are days to settle,
    /// and either the window starts after the first of them or the
    /// accumulator would leave its range.
    pub open spec fn settle_fails(self, day: int) -> bool {
        self.last_update_calc_reward_nft_index < day && (
            self.last_update_calc_reward_nft_index < self.staked_counts_start_day
            || self.cumulative_reward_per_nft + self.accrued(day) > u64::MAX
        )
    }

    /// The accumulator after a settlement up to `day`.
    pub open spec fn settled_reward(self, day: int) -> int {
        self.cumulative_reward_per_nft + self.accrued(day)
    }

    /// The pool after an accepted settlement up to `day`: unchanged where no
    /// day has elapsed; otherwise the accumulator has gained the shares of
    /// the elapsed days, and the window is empty, starts at `day` and carries
    /// the present number of staked NFTs.
    pub open spec fn settled(self, day: int) -> PoolView {
        if self.last_update_calc_reward_nft_index >= day {
            self
        } else {
            PoolView {
                cumulative_reward_per_nft: self.settled_reward(day) as u64,
                staked_counts: Seq::empty(),
                staked_counts_start_day: day as u64,
                last_update_calc_reward_nft_index: day as u64,
                total_staked_at_window_start: self.total_staked,
                ..self
            }
        }
    }

    /// The day that holds the instant `now`.
    pub open spec fn day_at(self, now: i64) -> int {
        day_of(self.start_staking_timestamp, now)
    }
}

/// Every share is non-negative, so the accrued sum never shrinks as the day
/// advances.
pub proof fn lemma_accrued_grows(v: PoolView, a: int, b: int)
    requires
        a <= b,
    ensures
        0 <= v.accrued(a) <= v.accrued(b),
    decreases b - v.last_update_calc_reward_nft_index,
{
    if b <= v.last_update_calc_reward_nft_index {
    } else if a == b {
        lemma_accrued_grows(v, a - 1, b - 1);
    } else {
        lemma_accrued_grows(v, a, b - 1);
        lemma_share_non_negative(v, b - 1);
    }
}

/// No day takes reward away.
pub proof fn lemma_share_non_negative(v: PoolView, day: int)
    ensures
        0 <= v.share_on(day),
{
    let count = v.count_on(day);
    if count > 0 {
        let reward = v.reward_on(day);
        assert(0 <= reward / count) by (nonlinear_arith)
            requires
                0 <= reward,
                0 < count,
        ;
    }
}

} // verus!
