//! The reasons for which an operation on the pool is refused.

use vstd::prelude::*;

verus! {

/// Why an operation was refused. A refused operation leaves the pool and the
/// stake entry exactly as they were.
#[derive(Clone, Copy, Debug, PartialEq, Eq, Structural)]
pub enum ErrorCode {
    /// This collection is already on the whitelist.
    CollectionAlreadyAllowed,
    /// This collection is not on the whitelist.
    CollectionNotAllowed,
    /// This NFT does not belong to a collection.
    NotPartOfCollection,
    /// The NFT's collection is not verified by a creator.
    CollectionNotVerified,
    /// The caller is neither the pool admin nor the owner of the stake entry
    /// that the operation is about.
    Unauthorized,
    /// Cannot add zero rewards.
    ZeroRewardAmount,
    /// Cannot fund zero epochs.
    ZeroEpochAmount,
    /// No rewards available to claim at this time.
    NoRewardsToClaim,
    /// Adding these epochs would exceed the maximum capacity.
    MaxEpochsExceeded,
    /// Adding this collection would exceed the maximum capacity.
    MaxCollectionsExceeded,
    /// An overflow or underflow during reward calculation.
    RewardCalculationError,
    /// Insufficient balance in the vault to perform this operation.
    InsufficientVaultBalance,
    /// The window of daily staked counts is full: rewards must be updated
    /// more frequently.
    MaxStakedCountsExceeded,
    /// The metadata account of the NFT does not hold readable metadata.
    InvalidMetadata,
}

impl ErrorCode {
    /// The text of `message`.
    pub open spec fn message_text(self) -> Seq<char> {
        match self {
            ErrorCode::CollectionAlreadyAllowed => "This collection is already on the whitelist."@,
            ErrorCode::CollectionNotAllowed => "This collection is not on the whitelist."@,
            ErrorCode::NotPartOfCollection => "This NFT does not belong to a collection."@,
            ErrorCode::CollectionNotVerified => "The NFT's collection is not verified by a creator."@,
            ErrorCode::Unauthorized => "Signer is not the pool admin or the owner of the stake entry."@,
            ErrorCode::ZeroRewardAmount => "Cannot add zero rewards."@,
            ErrorCode::ZeroEpochAmount => "Cannot fund zero epochs."@,
            ErrorCode::NoRewardsToClaim => "No rewards available to claim at this time."@,
            ErrorCode::MaxEpochsExceeded => "Adding these epochs would exceed the maximum capacity."@,
            ErrorCode::MaxCollectionsExceeded => "Adding this collection would exceed the maximum capacity."@,
            ErrorCode::RewardCalculationError => "An error occurred during reward calculation (e.g., overflow, underflow, division by zero)."@,
            ErrorCode::InsufficientVaultBalance => "Insufficient balance in the vault to perform this operation."@,
            ErrorCode::MaxStakedCountsExceeded => "Staked counts window exceeded maximum capacity. Please update rewards more frequently."@,
            ErrorCode::InvalidMetadata => "The metadata account does not hold readable token metadata."@,
        }
    }

    /// What to tell the caller whose operation was refused.
    pub fn message(&self) -> (text: &'static str)
        ensures
            text@ == self.message_text(),
    {
        match self {
            ErrorCode::CollectionAlreadyAllowed => "This collection is already on the whitelist.",
            ErrorCode::CollectionNotAllowed => "This collection is not on the whitelist.",
            ErrorCode::NotPartOfCollection => "This NFT does not belong to a collection.",
            ErrorCode::CollectionNotVerified => "The NFT's collection is not verified by a creator.",
            ErrorCode::Unauthorized => "Signer is not the pool admin or the owner of the stake entry.",
            ErrorCode::ZeroRewardAmount => "Cannot add zero rewards.",
            ErrorCode::ZeroEpochAmount => "Cannot fund zero epochs.",
            ErrorCode::NoRewardsToClaim => "No rewards available to claim at this time.",
            ErrorCode::MaxEpochsExceeded => "Adding these epochs would exceed the maximum capacity.",
            ErrorCode::MaxCollectionsExceeded => "Adding this collection would exceed the maximum capacity.",
            ErrorCode::RewardCalculationError => "An error occurred during reward calculation (e.g., overflow, underflow, division by zero).",
            ErrorCode::InsufficientVaultBalance => "Insufficient balance in the vault to perform this operation.",
            ErrorCode::MaxStakedCountsExceeded => "Staked counts window exceeded maximum capacity. Please update rewards more frequently.",
            ErrorCode::InvalidMetadata => "The metadata account does not hold readable token metadata.",
        }
    }
}

} // verus!
