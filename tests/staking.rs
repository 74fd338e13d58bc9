use pyusd_manifesto::{
    accrue, claim_rewards, compound_rewards, effective_apy_of, initialize_staking_pool, stake,
    tier_for, unstake, Endpoint, ErrorCode, LockPeriod, Pubkey, StakingPool, StakingTier, Transfer,
    UserStake,
};

fn key(b: u8) -> Pubkey {
    Pubkey::new([b; 32])
}

const T: i64 = 1_700_000_000;
const DAY: i64 = 86_400;
const YEAR: i64 = 365 * DAY;

fn pool() -> StakingPool {
    initialize_staking_pool(key(50), key(51), 7, T)
}

#[test]
fn staking_scenario_lock_blocks_unstake() {
    let mut pool = pool();
    let mut pos: Option<UserStake> = None;
    let t = stake(&mut pool, &key(60), &mut pos, &key(1), 100_000_000, LockPeriod::ThirtyDays, T).unwrap();
    assert_eq!(t, Transfer { from: Endpoint::Party(key(1)), to: Endpoint::Custody, amount: 100_000_000 });
    assert_eq!(pos.unwrap().lock_end_time, T + 30 * DAY);
    assert_eq!(pool.total_staked, 100_000_000);
    assert_eq!(unstake(&mut pool, &mut pos, 100_000_000, T + 10), Err(ErrorCode::StakeStillLocked));
    assert_eq!(unstake(&mut pool, &mut pos, 1, T + 10), Err(ErrorCode::StakeStillLocked));
    let t = unstake(&mut pool, &mut pos, 100_000_000, T + 30 * DAY).unwrap();
    assert_eq!(t, Transfer { from: Endpoint::Custody, to: Endpoint::Party(key(1)), amount: 100_000_000 });
    assert!(pos.is_none());
    assert_eq!(pool.total_staked, 0);
}

#[test]
fn staking_scenario_gold_full_year() {
    let mut pool = pool();
    let mut pos: Option<UserStake> = None;
    stake(&mut pool, &key(60), &mut pos, &key(1), 10_000_000_000, LockPeriod::Unlocked, T).unwrap();
    let mut p = pos.unwrap();
    assert_eq!(p.tier, StakingTier::Gold);
    assert_eq!(p.get_base_apy(), 2500);
    assert_eq!(p.lock_end_time, 0);
    let t = claim_rewards(&mut pool, &mut p, T + YEAR).unwrap();
    assert_eq!(t.amount, 2_500_000_000);
    assert_eq!(t.to, Endpoint::Party(key(1)));
    assert_eq!(p.rewards_claimed, 2_500_000_000);
    assert_eq!(p.pending_rewards, 0);
    assert_eq!(p.last_claim_timestamp, T + YEAR);
    assert_eq!(pool.total_rewards_distributed, 2_500_000_000);
    assert_eq!(claim_rewards(&mut pool, &mut p, T + YEAR), Err(ErrorCode::NoRewardsToClaim));
}

#[test]
fn tier_thresholds() {
    assert_eq!(UserStake::calculate_tier(0), StakingTier::Bronze);
    assert_eq!(UserStake::calculate_tier(999_999_999), StakingTier::Bronze);
    assert_eq!(UserStake::calculate_tier(1_000_000_000), StakingTier::Silver);
    assert_eq!(UserStake::calculate_tier(9_999_999_999), StakingTier::Silver);
    assert_eq!(tier_for(10_000_000_000), StakingTier::Gold);
    assert_eq!(tier_for(49_999_999_999), StakingTier::Gold);
    assert_eq!(tier_for(50_000_000_000), StakingTier::Diamond);
    assert_eq!(tier_for(u64::MAX), StakingTier::Diamond);
}

#[test]
fn tier_is_monotone_on_samples() {
    let samples = [0u64, 1, 99_999_999, 1_000_000_000, 5_000_000_000, 10_000_000_000, 60_000_000_000];
    let rank = |t: StakingTier| match t {
        StakingTier::Bronze => 0,
        StakingTier::Silver => 1,
        StakingTier::Gold => 2,
        StakingTier::Diamond => 3,
    };
    for w in samples.windows(2) {
        assert!(rank(tier_for(w[0])) <= rank(tier_for(w[1])));
    }
}

#[test]
fn effective_apy_table() {
    assert_eq!(effective_apy_of(StakingTier::Bronze, LockPeriod::Unlocked), 800);
    assert_eq!(effective_apy_of(StakingTier::Bronze, LockPeriod::ThirtyDays), 1040);
    assert_eq!(effective_apy_of(StakingTier::Silver, LockPeriod::NinetyDays), 2550);
    assert_eq!(effective_apy_of(StakingTier::Diamond, LockPeriod::OneEightyDays), 10_000);
    assert_eq!(LockPeriod::NinetyDays.multiplier(), 1700);
    assert_eq!(LockPeriod::OneEightyDays.to_seconds(), 180 * DAY);
    assert_eq!(LockPeriod::Unlocked.to_seconds(), 0);
}

#[test]
fn accrue_formula() {
    assert_eq!(accrue(1_000_000, 800, 0), Ok(0));
    assert_eq!(accrue(1_000_000, 800, -5), Ok(0));
    assert_eq!(accrue(10_000_000_000, 2500, YEAR as i128), Ok(2_500_000_000));
    // 1_000_000 * 800 * 86_400 / 315_360_000_000 = 219.17...
    assert_eq!(accrue(1_000_000, 800, DAY as i128), Ok(219));
    assert_eq!(accrue(u64::MAX, 10_000, i128::MAX), Err(ErrorCode::InvalidCalculation));
    // exactly u64::MAX over one year at 100%
    assert_eq!(accrue(u64::MAX, 10_000, YEAR as i128), Ok(u64::MAX));
    assert_eq!(accrue(u64::MAX, 10_000, YEAR as i128 + 1), Err(ErrorCode::InvalidCalculation));
}

#[test]
fn accrue_monotone_on_samples() {
    let mut last = 0;
    for dt in [0i128, 1, 60, 3600, 86_400, 31_536_000, 100_000_000] {
        let r = accrue(123_456_789, 3250, dt).unwrap();
        assert!(r >= last);
        last = r;
    }
}

#[test]
fn restake_banks_rewards_and_resets_lock() {
    let mut pool = pool();
    let mut pos: Option<UserStake> = None;
    stake(&mut pool, &key(60), &mut pos, &key(1), 10_000_000_000, LockPeriod::NinetyDays, T).unwrap();
    stake(&mut pool, &key(60), &mut pos, &key(1), 40_000_000_000, LockPeriod::ThirtyDays, T + YEAR).unwrap();
    let p = pos.unwrap();
    // Gold with the 90-day lock: 4250 bps for one year
    assert_eq!(p.pending_rewards, 4_250_000_000);
    assert_eq!(p.amount_staked, 50_000_000_000);
    assert_eq!(p.tier, StakingTier::Diamond);
    assert_eq!(p.lock_period, LockPeriod::ThirtyDays);
    assert_eq!(p.lock_end_time, T + YEAR + 30 * DAY);
    assert_eq!(p.stake_timestamp, T);
    assert_eq!(p.last_claim_timestamp, T + YEAR);
    assert_eq!(pool.total_staked, 50_000_000_000);
    assert_eq!(p.pool, key(60));
    assert_eq!(p.owner, key(1));
}

#[test]
fn stake_then_unstake_keeps_tier() {
    let mut pool = pool();
    let mut pos: Option<UserStake> = None;
    stake(&mut pool, &key(60), &mut pos, &key(1), 2_000_000_000, LockPeriod::Unlocked, T).unwrap();
    assert_eq!(pos.unwrap().tier, StakingTier::Silver);
    stake(&mut pool, &key(60), &mut pos, &key(1), 60_000_000_000, LockPeriod::Unlocked, T + 1).unwrap();
    assert_eq!(pos.unwrap().tier, StakingTier::Diamond);
    unstake(&mut pool, &mut pos, 60_000_000_000, T + 2).unwrap();
    assert_eq!(pos.unwrap().tier, StakingTier::Silver);
    assert_eq!(pos.unwrap().amount_staked, 2_000_000_000);
}

#[test]
fn unstake_errors() {
    let mut pool = pool();
    let mut pos: Option<UserStake> = None;
    assert_eq!(unstake(&mut pool, &mut pos, 1, T), Err(ErrorCode::AccountClosed));
    stake(&mut pool, &key(60), &mut pos, &key(1), 500, LockPeriod::Unlocked, T).unwrap();
    assert_eq!(unstake(&mut pool, &mut pos, 501, T), Err(ErrorCode::InsufficientStake));
    pool.total_staked = 100;
    assert_eq!(unstake(&mut pool, &mut pos, 200, T), Err(ErrorCode::InvalidCalculation));
    assert_eq!(pos.unwrap().amount_staked, 500);
}

#[test]
fn stake_overflow_is_refused() {
    let mut pool = pool();
    let mut pos: Option<UserStake> = None;
    stake(&mut pool, &key(60), &mut pos, &key(1), u64::MAX, LockPeriod::Unlocked, T).unwrap();
    let before = pos.unwrap();
    assert_eq!(
        stake(&mut pool, &key(60), &mut pos, &key(1), 1, LockPeriod::Unlocked, T),
        Err(ErrorCode::InvalidCalculation)
    );
    assert_eq!(pos.unwrap().amount_staked, before.amount_staked);
    let mut pos2: Option<UserStake> = None;
    assert_eq!(
        stake(&mut pool, &key(60), &mut pos2, &key(2), 1, LockPeriod::ThirtyDays, i64::MAX - 10),
        Err(ErrorCode::InvalidCalculation)
    );
    assert!(pos2.is_none());
}

#[test]
fn compound_restakes_rewards() {
    let mut pool = pool();
    let mut pos: Option<UserStake> = None;
    stake(&mut pool, &key(60), &mut pos, &key(1), 10_000_000_000, LockPeriod::Unlocked, T).unwrap();
    let mut p = pos.unwrap();
    assert_eq!(compound_rewards(&mut p, T), Err(ErrorCode::NoRewardsToClaim));
    assert_eq!(compound_rewards(&mut p, T + YEAR), Ok(2_500_000_000));
    assert_eq!(p.amount_staked, 12_500_000_000);
    assert_eq!(p.pending_rewards, 0);
    assert_eq!(p.last_claim_timestamp, T + YEAR);
    assert_eq!(pool.total_staked, 10_000_000_000);
}

#[test]
fn pending_rewards_of_position() {
    let mut pool = pool();
    let mut pos: Option<UserStake> = None;
    stake(&mut pool, &key(60), &mut pos, &key(1), 1_000_000_000, LockPeriod::OneEightyDays, T).unwrap();
    let p = pos.unwrap();
    assert_eq!(p.get_lock_multiplier(), 2500);
    assert_eq!(p.calculate_tier_apy(), 3750);
    assert_eq!(p.calculate_pending_rewards(T), Ok(0));
    assert_eq!(p.calculate_pending_rewards(T - 100), Ok(0));
    assert_eq!(p.calculate_pending_rewards(T + YEAR), Ok(375_000_000));
}
