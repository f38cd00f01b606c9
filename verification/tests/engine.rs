use multi_nft_staker::errors::ErrorCode;
use multi_nft_staker::funding::{add_reward, add_reward_for_today, initialize_pool};
use multi_nft_staker::keys::Key;
use multi_nft_staker::pool::Pool;
use multi_nft_staker::settlement::{get_current_day, update_skipped_reward};

const DAY: i64 = 86400;

fn id(n: u8) -> Key {
    Key { bytes: [n; 32] }
}

fn fresh() -> Pool {
    initialize_pool(id(1), id(2), id(3), 254, 0)
}

/// A pool settled up to `last`, with the given schedule and window.
fn pool_at(rewards: Vec<u64>, last: u64, counts: Vec<u32>, start: u64, carry: u64) -> Pool {
    let mut pool = fresh();
    pool.rewards_per_epoch = rewards;
    pool.last_update_calc_reward_nft_index = last;
    pool.staked_counts = counts;
    pool.staked_counts_start_day = start;
    pool.total_staked_at_window_start = carry;
    pool
}

#[test]
fn new_pool_is_empty() {
    let pool = initialize_pool(id(1), id(2), id(3), 254, 777);
    assert_eq!(pool.admin, id(1));
    assert_eq!(pool.reward_mint, id(2));
    assert_eq!(pool.reward_vault, id(3));
    assert_eq!(pool.bump, 254);
    assert!(pool.allowed_collections.is_empty());
    assert!(pool.rewards_per_epoch.is_empty());
    assert!(pool.staked_counts.is_empty());
    assert_eq!(pool.total_staked, 0);
    assert_eq!(pool.current_epoch, 0);
    assert_eq!(pool.epoch_duration, 86400);
    assert_eq!(pool.last_update_time, 777);
    assert_eq!(pool.start_staking_timestamp, 777);
    assert_eq!(pool.cumulative_reward_per_nft, 0);
    assert_eq!(pool.last_update_calc_reward_nft_index, 0);
    assert_eq!(pool.staked_counts_start_day, 0);
    assert_eq!(pool.total_staked_at_window_start, 0);
}

#[test]
fn limits_and_sizes() {
    assert_eq!(Pool::MAX_EPOCHS, 1200);
    assert_eq!(Pool::MAX_COLLECTIONS, 2);
    assert_eq!(Pool::MAX_STAKED_COUNTS_WINDOW_DAYS, 365);
    assert_eq!(Pool::ACCOUNT_SPACE, 11313);
    assert_eq!(multi_nft_staker::entry::NftStakeEntry::ACCOUNT_SPACE, 89);
}

#[test]
fn current_day_counts_whole_days_from_the_start() {
    let mut pool = fresh();
    pool.start_staking_timestamp = 1000;
    assert_eq!(get_current_day(&pool, 999), 0);
    assert_eq!(get_current_day(&pool, -5), 0);
    assert_eq!(get_current_day(&pool, 1000), 0);
    assert_eq!(get_current_day(&pool, 1000 + DAY - 1), 0);
    assert_eq!(get_current_day(&pool, 1000 + DAY), 1);
    assert_eq!(get_current_day(&pool, 1000 + 10 * DAY + 5), 10);
}

#[test]
fn current_day_spans_the_whole_range_of_timestamps() {
    let mut pool = fresh();
    pool.start_staking_timestamp = i64::MIN;
    assert_eq!(get_current_day(&pool, i64::MAX), 213503982334601);
    pool.start_staking_timestamp = 0;
    assert_eq!(get_current_day(&pool, i64::MAX), 106751991167300);
}

#[test]
fn add_reward_splits_evenly_and_drops_the_remainder() {
    let mut pool = fresh();
    let event = add_reward(&mut pool, id(1), 100, 3).unwrap();
    assert_eq!(pool.rewards_per_epoch, vec![33, 33, 33]);
    assert_eq!(event.funder, id(1));
    assert_eq!(event.total_amount, 100);
    assert_eq!(event.epochs_funded, 3);
    add_reward(&mut pool, id(1), 7, 2).unwrap();
    assert_eq!(pool.rewards_per_epoch, vec![33, 33, 33, 3, 3]);
    add_reward(&mut pool, id(1), 1, 2).unwrap();
    assert_eq!(pool.rewards_per_epoch, vec![33, 33, 33, 3, 3, 0, 0]);
}

#[test]
fn add_reward_refusals() {
    let mut pool = fresh();
    let before = pool.clone();
    assert_eq!(add_reward(&mut pool, id(7), 100, 1), Err(ErrorCode::Unauthorized));
    assert_eq!(add_reward(&mut pool, id(1), 0, 1), Err(ErrorCode::ZeroRewardAmount));
    assert_eq!(add_reward(&mut pool, id(1), 0, 0), Err(ErrorCode::ZeroRewardAmount));
    assert_eq!(add_reward(&mut pool, id(1), 100, 0), Err(ErrorCode::ZeroEpochAmount));
    assert_eq!(add_reward(&mut pool, id(1), 100, 1201), Err(ErrorCode::MaxEpochsExceeded));
    assert_eq!(add_reward(&mut pool, id(1), 100, u64::MAX), Err(ErrorCode::MaxEpochsExceeded));
    assert_eq!(pool, before);
}

#[test]
fn schedule_holds_exactly_its_capacity() {
    let mut pool = fresh();
    add_reward(&mut pool, id(1), 2400, 1200).unwrap();
    assert_eq!(pool.rewards_per_epoch.len(), 1200);
    assert_eq!(pool.rewards_per_epoch[1199], 2);
    assert_eq!(add_reward(&mut pool, id(1), 5, 1), Err(ErrorCode::MaxEpochsExceeded));
    assert_eq!(pool.rewards_per_epoch.len(), 1200);
}

#[test]
fn reward_for_day_is_zero_beyond_the_schedule() {
    let pool = pool_at(vec![5, 6], 0, vec![], 0, 0);
    assert_eq!(pool.reward_for_day(0), 5);
    assert_eq!(pool.reward_for_day(1), 6);
    assert_eq!(pool.reward_for_day(2), 0);
    assert_eq!(pool.reward_for_day(u64::MAX), 0);
}

#[test]
fn top_up_grows_the_schedule_with_zeros_and_adds_up() {
    let mut pool = fresh();
    let event = add_reward_for_today(&mut pool, id(1), 40, 3 * DAY + 10).unwrap();
    assert_eq!(pool.rewards_per_epoch, vec![0, 0, 0, 40]);
    assert_eq!(event.total_amount, 40);
    assert_eq!(event.epochs_funded, 1);
    add_reward_for_today(&mut pool, id(1), 2, 3 * DAY + 20).unwrap();
    assert_eq!(pool.rewards_per_epoch, vec![0, 0, 0, 42]);
    add_reward_for_today(&mut pool, id(1), 9, DAY).unwrap();
    assert_eq!(pool.rewards_per_epoch, vec![0, 9, 0, 42]);
    add_reward_for_today(&mut pool, id(1), 1, -50).unwrap();
    assert_eq!(pool.rewards_per_epoch, vec![1, 9, 0, 42]);
}

#[test]
fn top_up_stops_at_the_capacity_of_the_schedule() {
    let mut pool = fresh();
    add_reward_for_today(&mut pool, id(1), 7, 1199 * DAY).unwrap();
    assert_eq!(pool.rewards_per_epoch.len(), 1200);
    assert_eq!(pool.rewards_per_epoch[1199], 7);
    assert_eq!(pool.rewards_per_epoch[1198], 0);
    let before = pool.clone();
    assert_eq!(
        add_reward_for_today(&mut pool, id(1), 7, 1200 * DAY),
        Err(ErrorCode::MaxEpochsExceeded)
    );
    assert_eq!(
        add_reward_for_today(&mut pool, id(1), 7, i64::MAX),
        Err(ErrorCode::MaxEpochsExceeded)
    );
    assert_eq!(pool, before);
    add_reward_for_today(&mut pool, id(1), 1, 1199 * DAY + DAY - 1).unwrap();
    assert_eq!(pool.rewards_per_epoch[1199], 8);

    let mut empty = fresh();
    let before = empty.clone();
    assert_eq!(
        add_reward_for_today(&mut empty, id(1), 7, 1200 * DAY),
        Err(ErrorCode::MaxEpochsExceeded)
    );
    assert_eq!(empty, before);
}

#[test]
fn top_up_refusals() {
    let mut pool = fresh();
    pool.rewards_per_epoch = vec![u64::MAX - 1];
    let before = pool.clone();
    assert_eq!(add_reward_for_today(&mut pool, id(9), 1, 0), Err(ErrorCode::Unauthorized));
    assert_eq!(add_reward_for_today(&mut pool, id(1), 0, 0), Err(ErrorCode::ZeroRewardAmount));
    assert_eq!(
        add_reward_for_today(&mut pool, id(1), 2, 0),
        Err(ErrorCode::RewardCalculationError)
    );
    assert_eq!(pool, before);
    add_reward_for_today(&mut pool, id(1), 1, 0).unwrap();
    assert_eq!(pool.rewards_per_epoch, vec![u64::MAX]);
}

#[test]
fn record_grows_the_window_with_zeros() {
    let mut pool = pool_at(vec![], 10, vec![], 10, 4);
    assert_eq!(pool.record_staked_count(13, 7), Ok(()));
    assert_eq!(pool.staked_counts, vec![0, 0, 0, 7]);
    assert_eq!(pool.record_staked_count(11, 5), Ok(()));
    assert_eq!(pool.staked_counts, vec![0, 5, 0, 7]);
    assert_eq!(pool.record_staked_count(13, 8), Ok(()));
    assert_eq!(pool.staked_counts, vec![0, 5, 0, 8]);
    assert_eq!(pool.staked_counts_start_day, 10);
    assert_eq!(pool.total_staked_at_window_start, 4);
}

#[test]
fn record_before_the_window_is_refused() {
    let mut pool = pool_at(vec![], 10, vec![3], 10, 4);
    let before = pool.clone();
    assert_eq!(pool.record_staked_count(9, 7), Err(ErrorCode::RewardCalculationError));
    assert_eq!(pool, before);
}

#[test]
fn window_overflows_after_its_last_day() {
    let mut pool = fresh();
    for day in 0..365u64 {
        assert_eq!(pool.record_staked_count(day, 1 + day as u32), Ok(()));
    }
    assert_eq!(pool.staked_counts.len(), 365);
    assert_eq!(pool.staked_counts[364], 365);
    let before = pool.clone();
    assert_eq!(pool.record_staked_count(365, 1), Err(ErrorCode::MaxStakedCountsExceeded));
    assert_eq!(pool.record_staked_count(u64::MAX, 1), Err(ErrorCode::MaxStakedCountsExceeded));
    assert_eq!(pool, before);
    assert_eq!(pool.record_staked_count(364, 2), Ok(()));
}

#[test]
fn compaction_empties_the_window() {
    let mut pool = pool_at(vec![1, 2], 0, vec![3, 0, 4], 0, 2);
    pool.compact_window(9, 6);
    assert!(pool.staked_counts.is_empty());
    assert_eq!(pool.staked_counts_start_day, 9);
    assert_eq!(pool.total_staked_at_window_start, 6);
    assert_eq!(pool.rewards_per_epoch, vec![1, 2]);
    assert_eq!(pool.last_update_calc_reward_nft_index, 0);
}

#[test]
fn settlement_divides_each_day_by_the_count_in_force() {
    // day 0: 100 / 3, day 1: 50 / 3 (carried), day 2: 90 / 4, day 3: 7 / 4, day 4: nothing funded
    let mut pool = pool_at(vec![100, 50, 90, 7], 0, vec![3, 0, 4], 0, 9);
    pool.total_staked = 4;
    assert_eq!(pool.settled_reward_per_nft(5), Ok(33 + 16 + 22 + 1));
    assert_eq!(pool.settled_reward_per_nft(2), Ok(33 + 16));
    assert_eq!(pool.settled_reward_per_nft(0), Ok(0));
    assert_eq!(update_skipped_reward(&mut pool, 5 * DAY + 1), Ok(()));
    assert_eq!(pool.cumulative_reward_per_nft, 72);
    assert_eq!(pool.last_update_calc_reward_nft_index, 5);
    assert_eq!(pool.staked_counts_start_day, 5);
    assert_eq!(pool.total_staked_at_window_start, 4);
    assert!(pool.staked_counts.is_empty());
    assert_eq!(pool.rewards_per_epoch, vec![100, 50, 90, 7]);
    assert_eq!(pool.total_staked, 4);
}

#[test]
fn settlement_uses_the_carried_count_before_the_first_record() {
    let mut pool = pool_at(vec![10, 10, 10], 0, vec![0, 5], 0, 2);
    assert_eq!(pool.settle_until(3), Ok(()));
    assert_eq!(pool.cumulative_reward_per_nft, 5 + 2 + 2);
}

#[test]
fn settling_twice_on_one_day_changes_nothing() {
    let mut pool = pool_at(vec![100, 50], 0, vec![3], 0, 0);
    pool.total_staked = 3;
    assert_eq!(update_skipped_reward(&mut pool, 2 * DAY), Ok(()));
    let once = pool.clone();
    assert_eq!(once.cumulative_reward_per_nft, 49);
    assert_eq!(update_skipped_reward(&mut pool, 2 * DAY), Ok(()));
    assert_eq!(pool, once);
    assert_eq!(update_skipped_reward(&mut pool, 2 * DAY + DAY - 1), Ok(()));
    assert_eq!(pool, once);
    assert_eq!(update_skipped_reward(&mut pool, DAY), Ok(()));
    assert_eq!(pool, once);
}

#[test]
fn accumulator_never_decreases() {
    let mut pool = pool_at(vec![9, 0, 4, 11, 3], 0, vec![2], 0, 0);
    pool.total_staked = 2;
    let mut seen: u64 = 0;
    for day in 0..8i64 {
        assert_eq!(update_skipped_reward(&mut pool, day * DAY), Ok(()));
        assert!(pool.cumulative_reward_per_nft >= seen);
        seen = pool.cumulative_reward_per_nft;
    }
    assert_eq!(seen, 4 + 0 + 2 + 5 + 1);
}

#[test]
fn settling_in_steps_matches_settling_at_once() {
    let mut stepwise = pool_at(vec![9, 0, 4, 11, 3], 0, vec![2], 0, 0);
    stepwise.total_staked = 2;
    let mut at_once = stepwise.clone();
    assert_eq!(stepwise.settle_until(2), Ok(()));
    assert_eq!(stepwise.settle_until(3), Ok(()));
    assert_eq!(stepwise.settle_until(5), Ok(()));
    assert_eq!(at_once.settle_until(5), Ok(()));
    assert_eq!(stepwise, at_once);
}

#[test]
fn day_without_stakers_loses_its_reward() {
    let mut pool = fresh();
    add_reward(&mut pool, id(1), 100, 1).unwrap();
    assert_eq!(pool.total_staked, 0);
    assert_eq!(update_skipped_reward(&mut pool, 2 * DAY), Ok(()));
    assert_eq!(pool.cumulative_reward_per_nft, 0);
    assert_eq!(pool.last_update_calc_reward_nft_index, 2);
    assert_eq!(pool.rewards_per_epoch, vec![100]);
}

#[test]
fn settlement_overflow_is_refused_and_changes_nothing() {
    let mut pool = pool_at(vec![3, 10], 0, vec![1], 0, 0);
    pool.cumulative_reward_per_nft = u64::MAX - 5;
    pool.total_staked = 1;
    let before = pool.clone();
    assert_eq!(pool.settled_reward_per_nft(2), Err(ErrorCode::RewardCalculationError));
    assert_eq!(update_skipped_reward(&mut pool, 2 * DAY), Err(ErrorCode::RewardCalculationError));
    assert_eq!(pool, before);
    assert_eq!(update_skipped_reward(&mut pool, DAY), Ok(()));
    assert_eq!(pool.cumulative_reward_per_nft, u64::MAX - 2);
}

#[test]
fn settlement_reaches_the_top_of_the_range() {
    let mut pool = pool_at(vec![5], 0, vec![1], 0, 0);
    pool.cumulative_reward_per_nft = u64::MAX - 5;
    assert_eq!(pool.settle_until(1), Ok(()));
    assert_eq!(pool.cumulative_reward_per_nft, u64::MAX);
}

#[test]
fn settlement_from_before_the_window_is_refused() {
    let mut pool = pool_at(vec![3, 10], 1, vec![1], 2, 1);
    let before = pool.clone();
    assert_eq!(pool.settle_until(3), Err(ErrorCode::RewardCalculationError));
    assert_eq!(pool, before);
    assert_eq!(pool.settle_until(1), Ok(()));
    assert_eq!(pool, before);
}

#[test]
fn error_messages() {
    assert_eq!(ErrorCode::ZeroRewardAmount.message(), "Cannot add zero rewards.");
    assert_eq!(ErrorCode::ZeroEpochAmount.message(), "Cannot fund zero epochs.");
    assert_eq!(
        ErrorCode::NoRewardsToClaim.message(),
        "No rewards available to claim at this time."
    );
    assert_eq!(
        ErrorCode::MaxStakedCountsExceeded.message(),
        "Staked counts window exceeded maximum capacity. Please update rewards more frequently."
    );
    assert_ne!(ErrorCode::Unauthorized.message(), ErrorCode::InvalidMetadata.message());
}
