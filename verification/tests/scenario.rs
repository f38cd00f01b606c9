use multi_nft_staker::entry::NftStakeEntry;
use multi_nft_staker::errors::ErrorCode;
use multi_nft_staker::funding::{add_collection, add_reward, initialize_pool};
use multi_nft_staker::keys::Key;
use multi_nft_staker::metadata::CollectionClaim;
use multi_nft_staker::pool::Pool;
use multi_nft_staker::staking::{claim_reward, stake_claimed};

const DAY: i64 = 86400;

fn key(n: u8) -> Key {
    Key { bytes: [n; 32] }
}

fn pool_with_collection() -> Pool {
    let mut pool = initialize_pool(key(1), key(2), key(3), 255, 0);
    assert_eq!(add_collection(&mut pool, key(1), key(9)), Ok(()));
    pool
}

fn member() -> CollectionClaim {
    CollectionClaim::Member { verified: true, key: key(9) }
}

fn join(pool: &mut Pool, user: u8, mint: u8, now: i64) -> NftStakeEntry {
    stake_claimed(pool, member(), key(user), key(mint), 250, now).unwrap().0
}

#[test]
fn second_staker_owes_nothing_and_first_claims_the_day() {
    let mut pool = pool_with_collection();
    let funded = add_reward(&mut pool, key(1), 100, 1).unwrap();
    assert_eq!(funded.total_amount, 100);
    assert_eq!(pool.rewards_per_epoch, vec![100]);

    let mut a = join(&mut pool, 10, 11, 0);
    assert_eq!(pool.total_staked, 1);
    assert_eq!(pool.staked_counts, vec![1]);
    assert_eq!(a.skipped_reward, 0);

    let mut b = join(&mut pool, 20, 21, DAY);
    assert_eq!(pool.cumulative_reward_per_nft, 100);
    assert_eq!(b.skipped_reward, 100);
    assert_eq!(pool.total_staked, 2);
    assert_eq!(pool.staked_counts, vec![2]);
    assert_eq!(pool.staked_counts_start_day, 1);
    assert_eq!(pool.last_update_calc_reward_nft_index, 1);

    assert_eq!(
        claim_reward(&mut pool, &mut b, key(20), key(21), DAY),
        Err(ErrorCode::NoRewardsToClaim)
    );
    let paid = claim_reward(&mut pool, &mut a, key(10), key(11), DAY).unwrap();
    assert_eq!(paid.amount, 100);
    assert_eq!(paid.user, key(10));
    assert_eq!(a.skipped_reward, 100);
}
