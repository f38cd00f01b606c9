//! Reward accrual for a pool of staked items.
//!
//! Rewards are funded in day-sized slots, participants join and leave at any
//! time, and a single running accumulator gives every position its
//! time-weighted share without ever walking the set of participants.

pub mod keys;
pub mod errors;
pub mod events;
pub mod entry;
pub mod pool;
pub mod settlement;
pub mod metadata;
pub mod funding;
pub mod staking;
pub mod laws;
