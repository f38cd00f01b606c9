//! Staking, unstaking and claiming: what each does to the pool and to the
//! stake entry, and what the caller has to pay out.

use vstd::prelude::*;
use crate::entry::NftStakeEntry;
use crate::errors::ErrorCode;
use crate::events::{RewardClaimed, StakeEvent, UnstakeEvent};
use crate::keys::Key;
use crate::metadata::{
    check_collection, metadata_collection, read_collection, CollectionClaim, METADATA_TAG,
};
use crate::pool::{lemma_accrued_grows, Pool, PoolView};
use crate::settlement::get_current_day;

verus! {

impl PoolView {
    /// The pool after a settlement up to `day` and a change of the number of
    /// staked NFTs to `total`, recorded for `day`.
    pub open spec fn restaked(self, day: int, total: u64) -> PoolView {
        (PoolView { total_staked: total, ..self.settled(day) }).recorded(day, total as u32)
    }

    /// Whether an NFT with the collection claim `claim` is accepted at `now`,
    /// and the refusal where not. The number of staked NFTs never exceeds
    /// what one record of the window can hold.
    pub open spec fn stake_outcome(self, claim: Option<Option<(bool, Seq<u8>)>>, now: i64)
        -> Result<(), ErrorCode> {
        let day = self.day_at(now);
        if self.admission(claim) is Err {
            self.admission(claim)
        } else if self.settle_fails(day) || self.total_staked >= u32::MAX {
            Err(ErrorCode::RewardCalculationError)
        } else {
            self.settled(day).record_outcome(day)
        }
    }

    /// The reward owed at `now` to an entry whose reward was last settled
    /// when the accumulator stood at `skipped_reward`.
    pub open spec fn owed(self, skipped_reward: u64, now: i64) -> int {
        self.settled_reward(self.day_at(now)) - skipped_reward
    }

    /// Whether `user` may claim at `now` for `entry`, which they say holds
    /// `nft_mint`, and the refusal where not.
    pub open spec fn claim_outcome(self, entry: NftStakeEntry, user: Key, nft_mint: Key, now: i64)
        -> Result<(), ErrorCode> {
        if entry.user != user || entry.nft_mint != nft_mint {
            Err(ErrorCode::Unauthorized)
        } else if self.settle_fails(self.day_at(now)) || self.owed(entry.skipped_reward, now) < 0 {
            Err(ErrorCode::RewardCalculationError)
        } else if self.owed(entry.skipped_reward, now) == 0 {
            Err(ErrorCode::NoRewardsToClaim)
        } else {
            Ok(())
        }
    }

    /// Whether `user` may unstake at `now` the NFT of `entry`, which they say
    /// is `nft_mint`, and the refusal where not. A number of staked NFTs that
    /// the window could not record is refused.
    pub open spec fn unstake_outcome(
        self,
        entry: NftStakeEntry,
        user: Key,
        nft_mint: Key,
        now: i64,
    ) -> Result<(), ErrorCode> {
        let day = self.day_at(now);
        if entry.user != user || entry.nft_mint != nft_mint {
            Err(ErrorCode::Unauthorized)
        } else if self.settle_fails(day) || self.owed(entry.skipped_reward, now) < 0
            || self.total_staked == 0 || self.total_staked - 1 > u32::MAX {
            Err(ErrorCode::RewardCalculationError)
        } else {
            self.settled(day).record_outcome(day)
        }
    }
}

/// Stakes the NFT `nft_mint` of `user`, whose metadata account holds
/// `metadata`: settles the pool up to today, then counts the NFT in and
/// records today's count. The new entry starts with nothing owed. The caller
/// moves the NFT into its vault.
pub fn stake(pool: &mut Pool, metadata: &[u8], user: Key, nft_mint: Key, bump: u8, now: i64) -> (r:
    Result<(NftStakeEntry, StakeEvent), ErrorCode>)
    ensures
        r is Ok <==> old(pool)@.stake_outcome(metadata_collection(metadata@), now) is Ok,
        r is Err ==> old(pool)@.stake_outcome(metadata_collection(metadata@), now) == Err::<
            (),
            ErrorCode,
        >(r->Err_0),
        r is Err ==> final(pool)@ == old(pool)@,
        metadata@.len() == 0 || metadata@[0] != METADATA_TAG ==> r == Err::<
            (NftStakeEntry, StakeEvent),
            ErrorCode,
        >(ErrorCode::InvalidMetadata),
        r is Ok ==> final(pool)@ == old(pool)@.restaked(
            old(pool)@.day_at(now),
            (old(pool).total_staked + 1) as u64,
        ),
        r is Ok ==> r->Ok_0.0 == (NftStakeEntry {
            user,
            nft_mint,
            staked_at: now,
            last_claimed_epoch: old(pool).current_epoch,
            skipped_reward: final(pool).cumulative_reward_per_nft,
            bump,
        }),
        r is Ok ==> r->Ok_0.1 == (StakeEvent { user, nft_mint, staked_at: now }),
        final(pool).cumulative_reward_per_nft >= old(pool).cumulative_reward_per_nft,
        old(pool)@.consistent() ==> final(pool)@.consistent(),
{
    let claim: CollectionClaim = read_collection(metadata);
    stake_claimed(pool, claim, user, nft_mint, bump, now)
}

/// Stakes the NFT `nft_mint` of `user`, whose metadata makes the collection
/// claim `claim`.
pub fn stake_claimed(
    pool: &mut Pool,
    claim: CollectionClaim,
    user: Key,
    nft_mint: Key,
    bump: u8,
    now: i64,
) -> (r: Result<(NftStakeEntry, StakeEvent), ErrorCode>)
    ensures
        match r {
            Ok((entry, event)) => {
                &&& old(pool)@.stake_outcome(claim@, now) is Ok
                &&& final(pool)@ == old(pool)@.restaked(
                    old(pool)@.day_at(now),
                    (old(pool).total_staked + 1) as u64,
                )
                &&& entry == (NftStakeEntry {
                    user,
                    nft_mint,
                    staked_at: now,
                    last_claimed_epoch: old(pool).current_epoch,
                    skipped_reward: final(pool).cumulative_reward_per_nft,
                    bump,
                })
                &&& event == (StakeEvent { user, nft_mint, staked_at: now })
            },
            Err(e) => {
                &&& old(pool)@.stake_outcome(claim@, now) == Err::<(), ErrorCode>(e)
                &&& final(pool)@ == old(pool)@
            },
        },
        final(pool).cumulative_reward_per_nft >= old(pool).cumulative_reward_per_nft,
        old(pool)@.consistent() ==> final(pool)@.consistent(),
{
    match check_collection(pool, &claim) {
        Err(e) => {
            return Err(e);
        },
        Ok(()) => {},
    }
    let day: u64 = get_current_day(pool, now);
    let acc: u64 = match pool.settled_reward_per_nft(day) {
        Err(e) => {
            return Err(e);
        },
        Ok(acc) => acc,
    };
    let total: u64 = match pool.total_staked.checked_add(1) {
        None => {
            return Err(ErrorCode::RewardCalculationError);
        },
        Some(total) => total,
    };
    if total > u32::MAX as u64 {
        return Err(ErrorCode::RewardCalculationError);
    }
    match restake(pool, day, acc, total) {
        Err(e) => Err(e),
        Ok(()) => Ok(
            (
                NftStakeEntry {
                    user,
                    nft_mint,
                    staked_at: now,
                    last_claimed_epoch: pool.current_epoch,
                    skipped_reward: pool.cumulative_reward_per_nft,
                    bump,
                },
                StakeEvent { user, nft_mint, staked_at: now },
            ),
        ),
    }
}

/// Stores a settlement up to `day` that left the accumulator at `acc`, sets
/// the number of staked NFTs to `total` and records it for `day`; refused,
/// with nothing stored, where the window cannot take the record.
fn restake(pool: &mut Pool, day: u64, acc: u64, total: u64) -> (r: Result<(), ErrorCode>)
    requires
        !old(pool)@.settle_fails(day as int),
        acc == old(pool)@.settled_reward(day as int),
        total <= u32::MAX,
    ensures
        r == old(pool)@.settled(day as int).record_outcome(day as int),
        r is Ok ==> final(pool)@ == old(pool)@.restaked(day as int, total),
        r is Err ==> final(pool)@ == old(pool)@,
        final(pool).cumulative_reward_per_nft >= old(pool).cumulative_reward_per_nft,
        old(pool)@.consistent() ==> final(pool)@.consistent(),
{
    proof {
        lemma_accrued_grows(pool@, day as int, day as int);
    }
    if pool.last_update_calc_reward_nft_index < day {
        pool.apply_settlement(day, acc);
    } else {
        if day < pool.staked_counts_start_day {
            return Err(ErrorCode::RewardCalculationError);
        }
        if day - pool.staked_counts_start_day >= Pool::MAX_STAKED_COUNTS_WINDOW_DAYS as u64 {
            return Err(ErrorCode::MaxStakedCountsExceeded);
        }
    }
    pool.total_staked = total;
    let recorded = pool.record_staked_count(day, total as u32);
    assert(recorded is Ok);
    Ok(())
}

/// Pays `user` the reward owed to `entry`: settles the pool up to today and
/// moves the entry's baseline to the accumulator. The caller pays the
/// event's `amount` from the reward vault.
pub fn claim_reward(
    pool: &mut Pool,
    entry: &mut NftStakeEntry,
    user: Key,
    nft_mint: Key,
    now: i64,
) -> (r: Result<RewardClaimed, ErrorCode>)
    ensures
        match r {
            Ok(event) => {
                &&& old(pool)@.claim_outcome(*old(entry), user, nft_mint, now) is Ok
                &&& final(pool)@ == old(pool)@.settled(old(pool)@.day_at(now))
                &&& *final(entry) == (NftStakeEntry {
                    skipped_reward: final(pool).cumulative_reward_per_nft,
                    ..*old(entry)
                })
                &&& event == (RewardClaimed {
                    user,
                    nft_mint,
                    amount: old(pool)@.owed(old(entry).skipped_reward, now) as u64,
                })
                &&& event.amount == final(pool).cumulative_reward_per_nft - old(
                    entry,
                ).skipped_reward
            },
            Err(e) => {
                &&& old(pool)@.claim_outcome(*old(entry), user, nft_mint, now) == Err::<
                    (),
                    ErrorCode,
                >(e)
                &&& final(pool)@ == old(pool)@
                &&& *final(entry) == *old(entry)
            },
        },
        final(pool).cumulative_reward_per_nft >= old(pool).cumulative_reward_per_nft,
        old(pool)@.consistent() ==> final(pool)@.consistent(),
{
    if !entry.user.same(&user) || !entry.nft_mint.same(&nft_mint) {
        return Err(ErrorCode::Unauthorized);
    }
    let day: u64 = get_current_day(pool, now);
    let acc: u64 = match pool.settled_reward_per_nft(day) {
        Err(e) => {
            return Err(e);
        },
        Ok(acc) => acc,
    };
    let reward_amount: u64 = match acc.checked_sub(entry.skipped_reward) {
        None => {
            return Err(ErrorCode::RewardCalculationError);
        },
        Some(reward_amount) => reward_amount,
    };
    if reward_amount == 0 {
        return Err(ErrorCode::NoRewardsToClaim);
    }
    proof {
        lemma_accrued_grows(pool@, day as int, day as int);
    }
    if pool.last_update_calc_reward_nft_index < day {
        pool.apply_settlement(day, acc);
    }
    entry.skipped_reward = acc;
    Ok(RewardClaimed { user, nft_mint, amount: reward_amount })
}

/// Unstakes the NFT of `entry`: settles the pool up to today, works out the
/// reward still owed, counts the NFT out and records today's count. The
/// caller pays the `amount` of the `RewardClaimed`, where there is one, from
/// the reward vault, hands the NFT back and discards the entry.
pub fn unstake(
    pool: &mut Pool,
    entry: &mut NftStakeEntry,
    user: Key,
    nft_mint: Key,
    now: i64,
) -> (r: Result<(Option<RewardClaimed>, UnstakeEvent), ErrorCode>)
    ensures
        match r {
            Ok((claimed, event)) => {
                &&& old(pool)@.unstake_outcome(*old(entry), user, nft_mint, now) is Ok
                &&& final(pool)@ == old(pool)@.restaked(
                    old(pool)@.day_at(now),
                    (old(pool).total_staked - 1) as u64,
                )
                &&& *final(entry) == (NftStakeEntry {
                    skipped_reward: final(pool).cumulative_reward_per_nft,
                    ..*old(entry)
                })
                &&& claimed == if old(pool)@.owed(old(entry).skipped_reward, now) > 0 {
                    Some(
                        RewardClaimed {
                            user,
                            nft_mint,
                            amount: old(pool)@.owed(old(entry).skipped_reward, now) as u64,
                        },
                    )
                } else {
                    None
                }
                &&& event == (UnstakeEvent { user, nft_mint, unstaked_at: now })
            },
            Err(e) => {
                &&& old(pool)@.unstake_outcome(*old(entry), user, nft_mint, now) == Err::<
                    (),
                    ErrorCode,
                >(e)
                &&& final(pool)@ == old(pool)@
                &&& *final(entry) == *old(entry)
            },
        },
        final(pool).cumulative_reward_per_nft >= old(pool).cumulative_reward_per_nft,
        old(pool)@.consistent() ==> final(pool)@.consistent(),
{
    if !entry.user.same(&user) || !entry.nft_mint.same(&nft_mint) {
        return Err(ErrorCode::Unauthorized);
    }
    let day: u64 = get_current_day(pool, now);
    let acc: u64 = match pool.settled_reward_per_nft(day) {
        Err(e) => {
            return Err(e);
        },
        Ok(acc) => acc,
    };
    let reward_amount: u64 = match acc.checked_sub(entry.skipped_reward) {
        None => {
            return Err(ErrorCode::RewardCalculationError);
        },
        Some(reward_amount) => reward_amount,
    };
    let total: u64 = match pool.total_staked.checked_sub(1) {
        None => {
            return Err(ErrorCode::RewardCalculationError);
        },
        Some(total) => total,
    };
    if total > u32::MAX as u64 {
        return Err(ErrorCode::RewardCalculationError);
    }
    match restake(pool, day, acc, total) {
        Err(e) => {
            return Err(e);
        },
        Ok(()) => {},
    }
    entry.skipped_reward = acc;
    let claimed: Option<RewardClaimed> = if reward_amount > 0 {
        Some(RewardClaimed { user, nft_mint, amount: reward_amount })
    } else {
        None
    };
    Ok((claimed, UnstakeEvent { user, nft_mint, unstaked_at: now }))
}

} // verus!
