//! Funding the reward schedule, and the pool's administration.

use vstd::prelude::*;
use crate::errors::ErrorCode;
use crate::events::RewardAdded;
use crate::keys::{key_listed, Key};
use crate::pool::{Pool, PoolView};
use crate::settlement::get_current_day;

verus! {

impl Pool {
    /// Most days that the reward schedule can hold: no day from this one on
    /// can be funded, ahead or by a top-up.
    pub const MAX_EPOCHS: usize = 1200;

    /// Most collections that the whitelist can hold.
    pub const MAX_COLLECTIONS: usize = 2;

    /// Bytes that a stored pool takes at most.
    pub const ACCOUNT_SPACE: usize = 8 + 32 + 32 + 32 + (4 + 32 * 2) + 8 + 8 + 8 + 8 + (4 + 8
        * 1200) + 1 + 8 + 8 + 8 + 8 + 8 + (4 + 4 * 365);
}

impl PoolView {
    /// Whether `amount` spread over `num_epochs` days is accepted from
    /// `admin`, and the refusal where not.
    pub open spec fn add_reward_outcome(self, admin: Key, amount: u64, num_epochs: u64) -> Result<
        (),
        ErrorCode,
    > {
        if admin != self.admin {
            Err(ErrorCode::Unauthorized)
        } else if amount == 0 {
            Err(ErrorCode::ZeroRewardAmount)
        } else if num_epochs == 0 {
            Err(ErrorCode::ZeroEpochAmount)
        } else if self.rewards_per_epoch.len() + num_epochs > 1200 {
            Err(ErrorCode::MaxEpochsExceeded)
        } else {
            Ok(())
        }
    }

    /// The pool after `amount` was spread over `num_epochs` new days at the
    /// end of the schedule: each gets `amount / num_epochs`, rounded down,
    /// and the remainder is dropped.
    pub open spec fn funded(self, amount: u64, num_epochs: u64) -> PoolView {
        PoolView {
            rewards_per_epoch: self.rewards_per_epoch + Seq::new(
                num_epochs as nat,
                |i: int| (amount / num_epochs) as u64,
            ),
            ..self
        }
    }

    /// Whether `amount` is accepted from `admin` as a top-up of `day`, and
    /// the refusal where not: a day beyond the capacity of the schedule is
    /// refused like funding ahead that would not fit.
    pub open spec fn top_up_outcome(self, admin: Key, amount: u64, day: int) -> Result<
        (),
        ErrorCode,
    > {
        if admin != self.admin {
            Err(ErrorCode::Unauthorized)
        } else if amount == 0 {
            Err(ErrorCode::ZeroRewardAmount)
        } else if day >= 1200 {
            Err(ErrorCode::MaxEpochsExceeded)
        } else if self.reward_on(day) + amount > u64::MAX {
            Err(ErrorCode::RewardCalculationError)
        } else {
            Ok(())
        }
    }

    /// The pool after `amount` was added to the reward of `day`: the schedule
    /// reaches at least to `day`, with zero on the days it had to grow over.
    pub open spec fn topped_up(self, amount: u64, day: int) -> PoolView {
        let old_len = self.rewards_per_epoch.len() as int;
        let new_len = if day < old_len { old_len } else { day + 1 };
        PoolView {
            rewards_per_epoch: Seq::new(
                new_len as nat,
                |i: int|
                    if i == day {
                        (self.reward_on(day) + amount) as u64
                    } else if i < old_len {
                        self.rewards_per_epoch[i]
                    } else {
                        0u64
                    },
            ),
            ..self
        }
    }

    /// Whether `admin` may put `collection_mint` on the whitelist, and the
    /// refusal where not.
    pub open spec fn add_collection_outcome(self, admin: Key, collection_mint: Key) -> Result<
        (),
        ErrorCode,
    > {
        if admin != self.admin {
            Err(ErrorCode::Unauthorized)
        } else if self.allowed_collections.contains(collection_mint) {
            Err(ErrorCode::CollectionAlreadyAllowed)
        } else if self.allowed_collections.len() >= 2 {
            Err(ErrorCode::MaxCollectionsExceeded)
        } else {
            Ok(())
        }
    }

    /// Whether `admin` may take `collection_mint` off the whitelist, and the
    /// refusal where not.
    pub open spec fn remove_collection_outcome(self, admin: Key, collection_mint: Key) -> Result<
        (),
        ErrorCode,
    > {
        if admin != self.admin {
            Err(ErrorCode::Unauthorized)
        } else if !self.allowed_collections.contains(collection_mint) {
            Err(ErrorCode::CollectionNotAllowed)
        } else {
            Ok(())
        }
    }
}

/// The whitelist `list` without every occurrence of `key`, the rest in order.
pub open spec fn without(list: Seq<Key>, key: Key) -> Seq<Key> {
    list.filter(|k: Key| k != key)
}

/// Whether a withdrawal of `amount` by `admin` from a vault that holds
/// `vault_balance` is accepted, and the refusal where not.
pub open spec fn admin_claim_outcome(v: PoolView, admin: Key, amount: u64, vault_balance: u64)
    -> Result<(), ErrorCode> {
    if admin != v.admin {
        Err(ErrorCode::Unauthorized)
    } else if amount == 0 {
        Err(ErrorCode::ZeroRewardAmount)
    } else if vault_balance < amount {
        Err(ErrorCode::InsufficientVaultBalance)
    } else {
        Ok(())
    }
}

/// A new pool, started at `now`: nothing funded, nothing staked, an empty
/// whitelist, and days of 24 hours counted from `now`.
pub fn initialize_pool(admin: Key, reward_mint: Key, reward_vault: Key, bump: u8, now: i64) -> (pool:
    Pool)
    ensures
        pool@ == (PoolView {
            admin,
            reward_mint,
            reward_vault,
            allowed_collections: Seq::empty(),
            total_staked: 0,
            current_epoch: 0,
            last_update_time: now,
            epoch_duration: 86400,
            rewards_per_epoch: Seq::empty(),
            bump,
            start_staking_timestamp: now,
            cumulative_reward_per_nft: 0,
            last_update_calc_reward_nft_index: 0,
            staked_counts: Seq::empty(),
            staked_counts_start_day: 0,
            total_staked_at_window_start: 0,
        }),
        pool@.consistent(),
{
    Pool {
        admin,
        reward_mint,
        reward_vault,
        allowed_collections: Vec::new(),
        total_staked: 0,
        current_epoch: 0,
        last_update_time: now,
        epoch_duration: 86400,
        rewards_per_epoch: Vec::new(),
        bump,
        start_staking_timestamp: now,
        cumulative_reward_per_nft: 0,
        last_update_calc_reward_nft_index: 0,
        staked_counts: Vec::new(),
        staked_counts_start_day: 0,
        total_staked_at_window_start: 0,
    }
}

/// Funds `num_epochs` further days with `total_reward_amount / num_epochs`
/// each, appended to the schedule. The caller moves `total_reward_amount`
/// from the admin into the reward vault.
pub fn add_reward(pool: &mut Pool, admin: Key, total_reward_amount: u64, num_epochs: u64) -> (r:
    Result<RewardAdded, ErrorCode>)
    ensures
        match r {
            Ok(event) => {
                &&& old(pool)@.add_reward_outcome(admin, total_reward_amount, num_epochs) is Ok
                &&& final(pool)@ == old(pool)@.funded(total_reward_amount, num_epochs)
                &&& event == (RewardAdded {
                    funder: admin,
                    total_amount: total_reward_amount,
                    epochs_funded: num_epochs,
                })
            },
            Err(e) => {
                &&& old(pool)@.add_reward_outcome(admin, total_reward_amount, num_epochs) == Err::<
                    (),
                    ErrorCode,
                >(e)
                &&& final(pool)@ == old(pool)@
            },
        },
        final(pool).cumulative_reward_per_nft == old(pool).cumulative_reward_per_nft,
        old(pool)@.consistent() ==> final(pool)@.consistent(),
{
    if !admin.same(&pool.admin) {
        return Err(ErrorCode::Unauthorized);
    }
    if total_reward_amount == 0 {
        return Err(ErrorCode::ZeroRewardAmount);
    }
    if num_epochs == 0 {
        return Err(ErrorCode::ZeroEpochAmount);
    }
    let len: usize = pool.rewards_per_epoch.len();
    if len > Pool::MAX_EPOCHS || num_epochs > (Pool::MAX_EPOCHS - len) as u64 {
        return Err(ErrorCode::MaxEpochsExceeded);
    }
    let reward_per_epoch: u64 = total_reward_amount / num_epochs;
    let mut i: u64 = 0;
    while i < num_epochs
        invariant
            i <= num_epochs,
            len + num_epochs <= 1200,
            pool@ == (PoolView { rewards_per_epoch: pool.rewards_per_epoch@, ..old(pool)@ }),
            pool.rewards_per_epoch@ == old(pool).rewards_per_epoch@ + Seq::new(
                i as nat,
                |j: int| reward_per_epoch,
            ),
            len == old(pool).rewards_per_epoch.len(),
        decreases num_epochs - i,
    {
        pool.rewards_per_epoch.push(reward_per_epoch);
        i += 1;
        assert(pool.rewards_per_epoch@ =~= old(pool).rewards_per_epoch@ + Seq::new(
            i as nat,
            |j: int| reward_per_epoch,
        ));
    }
    assert(pool.rewards_per_epoch@ =~= old(pool)@.funded(
        total_reward_amount,
        num_epochs,
    ).rewards_per_epoch);
    Ok(RewardAdded { funder: admin, total_amount: total_reward_amount, epochs_funded: num_epochs })
}

/// Adds `amount` to the reward of the day that holds `now`, growing the
/// schedule with unfunded days up to it where needed, never beyond its
/// capacity. The caller moves
/// `amount` from the admin into the reward vault.
pub fn add_reward_for_today(pool: &mut Pool, admin: Key, amount: u64, now: i64) -> (r: Result<
    RewardAdded,
    ErrorCode,
>)
    ensures
        match r {
            Ok(event) => {
                &&& old(pool)@.top_up_outcome(admin, amount, old(pool)@.day_at(now)) is Ok
                &&& final(pool)@ == old(pool)@.topped_up(amount, old(pool)@.day_at(now))
                &&& event == (RewardAdded { funder: admin, total_amount: amount, epochs_funded: 1 })
            },
            Err(e) => {
                &&& old(pool)@.top_up_outcome(admin, amount, old(pool)@.day_at(now)) == Err::<
                    (),
                    ErrorCode,
                >(e)
                &&& final(pool)@ == old(pool)@
            },
        },
        final(pool).cumulative_reward_per_nft == old(pool).cumulative_reward_per_nft,
        old(pool)@.consistent() ==> final(pool)@.consistent(),
{
    if !admin.same(&pool.admin) {
        return Err(ErrorCode::Unauthorized);
    }
    if amount == 0 {
        return Err(ErrorCode::ZeroRewardAmount);
    }
    let current_day: u64 = get_current_day(pool, now);
    if current_day >= Pool::MAX_EPOCHS as u64 {
        return Err(ErrorCode::MaxEpochsExceeded);
    }
    let funded: u64 = pool.reward_for_day(current_day);
    let sum: u64 = match funded.checked_add(amount) {
        Some(sum) => sum,
        None => {
            return Err(ErrorCode::RewardCalculationError);
        },
    };
    let at: usize = current_day as usize;
    while pool.rewards_per_epoch.len() <= at
        invariant
            at < 1200,
            old(pool).rewards_per_epoch.len() <= pool.rewards_per_epoch.len(),
            pool.rewards_per_epoch.len() == old(pool).rewards_per_epoch.len() || (old(
                pool,
            ).rewards_per_epoch.len() <= at && pool.rewards_per_epoch.len() <= at + 1),
            forall|i: int|
                0 <= i < old(pool).rewards_per_epoch.len() ==> pool.rewards_per_epoch@[i] == old(
                    pool,
                ).rewards_per_epoch@[i],
            forall|i: int|
                old(pool).rewards_per_epoch.len() <= i < pool.rewards_per_epoch.len()
                    ==> pool.rewards_per_epoch@[i] == 0u64,
            pool@ == (PoolView { rewards_per_epoch: pool.rewards_per_epoch@, ..old(pool)@ }),
        decreases at + 1 - pool.rewards_per_epoch.len(),
    {
        pool.rewards_per_epoch.push(0);
    }
    pool.rewards_per_epoch[at] = sum;
    assert(pool.rewards_per_epoch@ =~= old(pool)@.topped_up(
        amount,
        current_day as int,
    ).rewards_per_epoch);
    Ok(RewardAdded { funder: admin, total_amount: amount, epochs_funded: 1 })
}

/// Puts `collection_mint` on the whitelist, at its end.
pub fn add_collection(pool: &mut Pool, admin: Key, collection_mint: Key) -> (r: Result<
    (),
    ErrorCode,
>)
    ensures
        r == old(pool)@.add_collection_outcome(admin, collection_mint),
        r is Ok ==> final(pool)@ == (PoolView {
            allowed_collections: old(pool)@.allowed_collections.push(collection_mint),
            ..old(pool)@
        }),
        r is Err ==> final(pool)@ == old(pool)@,
        final(pool).cumulative_reward_per_nft == old(pool).cumulative_reward_per_nft,
        old(pool)@.consistent() ==> final(pool)@.consistent(),
{
    if !admin.same(&pool.admin) {
        return Err(ErrorCode::Unauthorized);
    }
    if key_listed(&pool.allowed_collections, &collection_mint) {
        return Err(ErrorCode::CollectionAlreadyAllowed);
    }
    if pool.allowed_collections.len() >= Pool::MAX_COLLECTIONS {
        return Err(ErrorCode::MaxCollectionsExceeded);
    }
    pool.allowed_collections.push(collection_mint);
    Ok(())
}

/// Takes `collection_mint` off the whitelist; the other collections keep
/// their order.
pub fn remove_collection(pool: &mut Pool, admin: Key, collection_mint: Key) -> (r: Result<
    (),
    ErrorCode,
>)
    ensures
        r == old(pool)@.remove_collection_outcome(admin, collection_mint),
        r is Ok ==> final(pool)@ == (PoolView {
            allowed_collections: without(old(pool)@.allowed_collections, collection_mint),
            ..old(pool)@
        }),
        r is Err ==> final(pool)@ == old(pool)@,
        final(pool).cumulative_reward_per_nft == old(pool).cumulative_reward_per_nft,
        old(pool)@.consistent() ==> final(pool)@.consistent(),
{
    if !admin.same(&pool.admin) {
        return Err(ErrorCode::Unauthorized);
    }
    if !key_listed(&pool.allowed_collections, &collection_mint) {
        return Err(ErrorCode::CollectionNotAllowed);
    }
    let mut kept: Vec<Key> = Vec::new();
    let mut i: usize = 0;
    while i < pool.allowed_collections.len()
        invariant
            i <= pool.allowed_collections.len(),
            *pool == *old(pool),
            kept@ == without(pool.allowed_collections@.subrange(0, i as int), collection_mint),
        decreases pool.allowed_collections.len() - i,
    {
        let key: Key = pool.allowed_collections[i];
        proof {
            let list = pool.allowed_collections@;
            reveal(Seq::filter);
            assert(list.subrange(0, i + 1).drop_last() =~= list.subrange(0, i as int));
        }
        if !key.same(&collection_mint) {
            kept.push(key);
        }
        i += 1;
    }
    assert(pool.allowed_collections@.subrange(0, i as int) =~= pool.allowed_collections@);
    pool.allowed_collections = kept;
    Ok(())
}

/// Decides a withdrawal of `amount` from the reward vault by the admin. On
/// `Ok` the caller moves the returned amount from the vault to the admin.
pub fn admin_claim(pool: &Pool, admin: Key, amount: u64, vault_balance: u64) -> (r: Result<
    u64,
    ErrorCode,
>)
    ensures
        match r {
            Ok(paid) => admin_claim_outcome(pool@, admin, amount, vault_balance) is Ok && paid
                == amount,
            Err(e) => admin_claim_outcome(pool@, admin, amount, vault_balance) == Err::<
                (),
                ErrorCode,
            >(e),
        },
{
    if !admin.same(&pool.admin) {
        return Err(ErrorCode::Unauthorized);
    }
    if amount == 0 {
        return Err(ErrorCode::ZeroRewardAmount);
    }
    if vault_balance < amount {
        return Err(ErrorCode::InsufficientVaultBalance);
    }
    Ok(amount)
}

} // verus!
