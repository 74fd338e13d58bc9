use vstd::prelude::*;
use crate::error::ErrorCode;

verus! {

/// Stake from which a position counts as Bronze (all smaller stakes are Bronze too).
pub const TIER_BRONZE_MIN: u64 = 100_000_000;
/// Smallest Silver stake.
pub const TIER_SILVER_MIN: u64 = 1_000_000_000;
/// Smallest Gold stake.
pub const TIER_GOLD_MIN: u64 = 10_000_000_000;
/// Smallest Diamond stake.
pub const TIER_DIAMOND_MIN: u64 = 50_000_000_000;

/// Base yearly yields in basis points.
pub const BRONZE_APY: u64 = 800;
pub const SILVER_APY: u64 = 1500;
pub const GOLD_APY: u64 = 2500;
pub const DIAMOND_APY: u64 = 4000;

/// Lock multipliers, where 1000 stands for 1.0x.
pub const NO_LOCK_MULTIPLIER: u64 = 1000;
pub const LOCK_30_MULTIPLIER: u64 = 1300;
pub const LOCK_90_MULTIPLIER: u64 = 1700;
pub const LOCK_180_MULTIPLIER: u64 = 2500;

/// Lock durations in seconds.
pub const LOCK_30_DAYS: i64 = 2_592_000;
pub const LOCK_90_DAYS: i64 = 7_776_000;
pub const LOCK_180_DAYS: i64 = 15_552_000;

/// A year of 365 days, in seconds.
pub const SECONDS_PER_YEAR: u64 = 31_536_000;
/// Basis points in one whole.
pub const BASIS_POINTS: u64 = 10_000;
/// The divisor of the accrual formula: basis points times a year of seconds.
pub const ACCRUAL_DIVISOR: u128 = 315_360_000_000;

/// A staking class, derived from the staked amount alone.
#[derive(Clone, Copy, Debug, PartialEq, Eq, Structural)]
pub enum StakingTier {
    Bronze,
    Silver,
    Gold,
    Diamond,
}

/// How long staked funds stay locked; a longer lock earns a higher yield.
#[derive(Clone, Copy, Debug, PartialEq, Eq, Structural)]
pub enum LockPeriod {
    Unlocked,
    ThirtyDays,
    NinetyDays,
    OneEightyDays,
}

pub open spec fn tier_of(amount: int) -> StakingTier {
    if amount >= TIER_DIAMOND_MIN {
        StakingTier::Diamond
    } else if amount >= TIER_GOLD_MIN {
        StakingTier::Gold
    } else if amount >= TIER_SILVER_MIN {
        StakingTier::Silver
    } else {
        StakingTier::Bronze
    }
}

/// Position of a tier in the order Bronze < Silver < Gold < Diamond.
pub open spec fn tier_rank(t: StakingTier) -> int {
    match t {
        StakingTier::Bronze => 0,
        StakingTier::Silver => 1,
        StakingTier::Gold => 2,
        StakingTier::Diamond => 3,
    }
}

pub open spec fn base_apy(t: StakingTier) -> int {
    match t {
        StakingTier::Bronze => BRONZE_APY as int,
        StakingTier::Silver => SILVER_APY as int,
        StakingTier::Gold => GOLD_APY as int,
        StakingTier::Diamond => DIAMOND_APY as int,
    }
}

pub open spec fn lock_multiplier(l: LockPeriod) -> int {
    match l {
        LockPeriod::Unlocked => NO_LOCK_MULTIPLIER as int,
        LockPeriod::ThirtyDays => LOCK_30_MULTIPLIER as int,
        LockPeriod::NinetyDays => LOCK_90_MULTIPLIER as int,
        LockPeriod::OneEightyDays => LOCK_180_MULTIPLIER as int,
    }
}

pub open spec fn lock_duration(l: LockPeriod) -> int {
    match l {
        LockPeriod::Unlocked => 0,
        LockPeriod::ThirtyDays => LOCK_30_DAYS as int,
        LockPeriod::NinetyDays => LOCK_90_DAYS as int,
        LockPeriod::OneEightyDays => LOCK_180_DAYS as int,
    }
}

/// Yearly yield in basis points after the lock multiplier.
pub open spec fn effective_apy(t: StakingTier, l: LockPeriod) -> int {
    base_apy(t) * lock_multiplier(l) / 1000
}

/// Rewards earned by `amount` at `apy` basis points over `elapsed` seconds,
/// rounded down; nothing for an empty or negative interval.
pub open spec fn accrued(amount: int, apy: int, elapsed: int) -> int {
    if elapsed <= 0 {
        0
    } else {
        amount * apy * elapsed / (BASIS_POINTS * SECONDS_PER_YEAR)
    }
}

/// `accrued` as a `u64`, or `InvalidCalculation` where it does not fit.
pub open spec fn accrued_checked(amount: int, apy: int, elapsed: int) -> Result<u64, ErrorCode> {
    if accrued(amount, apy, elapsed) <= u64::MAX {
        Ok(accrued(amount, apy, elapsed) as u64)
    } else {
        Err(ErrorCode::InvalidCalculation)
    }
}

impl LockPeriod {
    pub fn to_seconds(&self) -> (r: i64)
        ensures
            r == lock_duration(*self),
    {
        match self {
            LockPeriod::Unlocked => 0,
            LockPeriod::ThirtyDays => LOCK_30_DAYS,
            LockPeriod::NinetyDays => LOCK_90_DAYS,
            LockPeriod::OneEightyDays => LOCK_180_DAYS,
        }
    }

    pub fn multiplier(&self) -> (r: u64)
        ensures
            r == lock_multiplier(*self),
    {
        match self {
            LockPeriod::Unlocked => NO_LOCK_MULTIPLIER,
            LockPeriod::ThirtyDays => LOCK_30_MULTIPLIER,
            LockPeriod::NinetyDays => LOCK_90_MULTIPLIER,
            LockPeriod::OneEightyDays => LOCK_180_MULTIPLIER,
        }
    }
}

impl StakingTier {
    pub fn base_apy(&self) -> (r: u64)
        ensures
            r == base_apy(*self),
    {
        match self {
            StakingTier::Bronze => BRONZE_APY,
            StakingTier::Silver => SILVER_APY,
            StakingTier::Gold => GOLD_APY,
            StakingTier::Diamond => DIAMOND_APY,
        }
    }
}

/// The tier of a stake of `amount`.
pub fn tier_for(amount: u64) -> (r: StakingTier)
    ensures
        r == tier_of(amount as int),
{
    if amount >= TIER_DIAMOND_MIN {
        StakingTier::Diamond
    } else if amount >= TIER_GOLD_MIN {
        StakingTier::Gold
    } else if amount >= TIER_SILVER_MIN {
        StakingTier::Silver
    } else {
        StakingTier::Bronze
    }
}

/// The yearly yield of a tier under a lock, in basis points.
pub fn effective_apy_of(tier: StakingTier, lock: LockPeriod) -> (r: u64)
    ensures
        r == effective_apy(tier, lock),
        r <= 10_000,
{
    let base = tier.base_apy();
    let mult = lock.multiplier();
    assert(base * mult <= 4000 * 2500) by (nonlinear_arith)
        requires
            base <= 4000,
            mult <= 2500,
    ;
    base * mult / 1000
}

proof fn lemma_wide_product_overflows(p: int)
    requires
        p > u128::MAX,
    ensures
        p / (ACCRUAL_DIVISOR as int) > u64::MAX,
{
    assert(p / 315_360_000_000int > 18_446_744_073_709_551_615int) by (nonlinear_arith)
        requires
            p > 340_282_366_920_938_463_463_374_607_431_768_211_455int,
    ;
}

/// Rewards earned by `amount` at `apy` basis points over `elapsed` seconds,
/// computed exactly in 128 bits and rounded down. Refused with
/// `InvalidCalculation` only where the result does not fit a `u64`.
pub fn accrue(amount: u64, apy: u64, elapsed: i128) -> (r: Result<u64, ErrorCode>)
    ensures
        r == accrued_checked(amount as int, apy as int, elapsed as int),
{
    if elapsed <= 0 {
        return Ok(0);
    }
    assert(amount as int * apy as int <= u64::MAX as int * u64::MAX as int) by (nonlinear_arith)
        requires
            amount <= u64::MAX,
            apy <= u64::MAX,
    ;
    let rate: u128 = amount as u128 * apy as u128;
    match rate.checked_mul(elapsed as u128) {
        None => {
            proof {
                lemma_wide_product_overflows(rate as int * elapsed as int);
            }
            Err(ErrorCode::InvalidCalculation)
        },
        Some(product) => {
            let rewards = product / ACCRUAL_DIVISOR;
            if rewards > u64::MAX as u128 {
                Err(ErrorCode::InvalidCalculation)
            } else {
                Ok(rewards as u64)
            }
        },
    }
}

/// No time, no rewards.
pub proof fn lemma_accrue_zero(amount: int, apy: int)
    ensures
        accrued(amount, apy, 0) == 0,
{
}

/// For a fixed stake and yield, rewards never shrink as time passes.
pub proof fn lemma_accrue_monotone(amount: int, apy: int, e1: int, e2: int)
    requires
        0 <= amount,
        0 <= apy,
        e1 <= e2,
    ensures
        0 <= accrued(amount, apy, e1) <= accrued(amount, apy, e2),
{
    if e1 > 0 {
        assert(amount * apy * e1 <= amount * apy * e2) by (nonlinear_arith)
            requires
                0 <= amount,
                0 <= apy,
                0 < e1 <= e2,
        ;
        assert(0 <= amount * apy * e1) by (nonlinear_arith)
            requires
                0 <= amount,
                0 <= apy,
                0 < e1,
        ;
        vstd::arithmetic::div_mod::lemma_div_is_ordered(
            amount * apy * e1,
            amount * apy * e2,
            315_360_000_000int,
        );
        vstd::arithmetic::div_mod::lemma_div_pos_is_pos(amount * apy * e1, 315_360_000_000int);
    } else if e2 > 0 {
        assert(0 <= amount * apy * e2) by (nonlinear_arith)
            requires
                0 <= amount,
                0 <= apy,
                0 < e2,
        ;
        vstd::arithmetic::div_mod::lemma_div_pos_is_pos(amount * apy * e2, 315_360_000_000int);
    }
}

/// A larger stake never falls into a lower tier.
pub proof fn lemma_tier_monotone(a1: int, a2: int)
    requires
        a1 <= a2,
    ensures
        tier_rank(tier_of(a1)) <= tier_rank(tier_of(a2)),
{
}

} // verus!
