//! The record kept for each staked NFT.

use vstd::prelude::*;
use crate::keys::Key;

verus! {

/// One staked NFT: who staked it, and the value of the pool's accumulator at
/// the moment its reward was last settled.
#[derive(Clone, Copy, Debug, PartialEq, Eq)]
pub struct NftStakeEntry {
    pub user: Key,
    pub nft_mint: Key,
    pub staked_at: i64,
    pub last_claimed_epoch: u64,
    /// The pool's `cumulative_reward_per_nft` when this entry was created or
    /// last paid: the reward owed is the accumulator minus this.
    pub skipped_reward: u64,
    pub bump: u8,
}

impl NftStakeEntry {
    /// Bytes that a stored entry takes.
    pub const ACCOUNT_SPACE: usize = 32 + 32 + 8 + 8 + 8 + 1;
}

} // verus!
