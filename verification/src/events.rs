//! What an accepted operation reports to outside observers.

use vstd::prelude::*;
use crate::keys::Key;

verus! {

/// Reward was funded.
#[derive(Clone, Copy, Debug, PartialEq, Eq)]
pub struct RewardAdded {
    pub funder: Key,
    pub total_amount: u64,
    pub epochs_funded: u64,
}

/// Reward was paid out to the owner of a stake entry.
#[derive(Clone, Copy, Debug, PartialEq, Eq)]
pub struct RewardClaimed {
    pub user: Key,
    pub nft_mint: Key,
    pub amount: u64,
}

/// An NFT entered the pool.
#[derive(Clone, Copy, Debug, PartialEq, Eq)]
pub struct StakeEvent {
    pub user: Key,
    pub nft_mint: Key,
    pub staked_at: i64,
}

/// An NFT left the pool.
#[derive(Clone, Copy, Debug, PartialEq, Eq)]
pub struct UnstakeEvent {
    pub user: Key,
    pub nft_mint: Key,
    pub unstaked_at: i64,
}

} // verus!
