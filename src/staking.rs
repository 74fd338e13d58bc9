use vstd::prelude::*;
use crate::error::ErrorCode;
use crate::ledger::{Endpoint, Transfer};
use crate::pubkey::Pubkey;
use crate::rewards::{
    accrue, accrued, accrued_checked, effective_apy, effective_apy_of, lock_duration,
    lock_multiplier, base_apy, tier_for, tier_of, LockPeriod, StakingTier,
};

verus! {

/// A staking pool's bookkeeping. Staked funds and rewards sit in the pool's custody.
#[derive(Clone, Copy, Debug)]
pub struct StakingPool {
    pub authority: Pubkey,
    pub reward_mint: Pubkey,
    pub total_staked: u64,
    pub total_rewards_distributed: u64,
    pub reward_rate_per_second: u64,
    pub created_at: i64,
    pub last_update: i64,
}

/// One user's position in a pool.
#[derive(Clone, Copy, Debug)]
pub struct UserStake {
    pub owner: Pubkey,
    pub pool: Pubkey,
    pub amount_staked: u64,
    /// Rewards accrued but not yet paid, frozen at the last stake or claim.
    pub pending_rewards: u64,
    /// Rewards paid out over the position's life.
    pub rewards_claimed: u64,
    pub stake_timestamp: i64,
    pub last_claim_timestamp: i64,
    /// End of the lock window; 0 when the position is not locked.
    pub lock_end_time: i64,
    pub lock_period: LockPeriod,
    /// Always the tier of `amount_staked`.
    pub tier: StakingTier,
}

/// Arguments of a pool's creation, as a client sends them.
#[derive(Clone, Copy, Debug)]
pub struct InitializeStakingPoolArgs {
    pub reward_rate_per_second: u64,
}

/// Arguments of a stake, as a client sends them.
#[derive(Clone, Copy, Debug)]
pub struct StakeArgs {
    pub amount: u64,
    pub lock_period: LockPeriod,
}

/// Arguments of an unstake, as a client sends them.
#[derive(Clone, Copy, Debug)]
pub struct UnstakeArgs {
    pub amount: u64,
}

impl UserStake {
    /// The tier is the one the staked amount calls for.
    pub open spec fn wf(&self) -> bool {
        self.tier == tier_of(self.amount_staked as int)
    }

    /// Rewards accrued since the last stake or claim, up to `now`.
    pub open spec fn accrued_since_claim(&self, now: i64) -> int {
        accrued(
            self.amount_staked as int,
            effective_apy(self.tier, self.lock_period),
            now - self.last_claim_timestamp,
        )
    }

    /// Everything the position could claim at `now`.
    pub open spec fn claimable_at(&self, now: i64) -> int {
        self.pending_rewards + self.accrued_since_claim(now)
    }

    /// The lock still holds at `now`.
    pub open spec fn locked_at(&self, now: i64) -> bool {
        self.lock_end_time > 0 && now < self.lock_end_time
    }

    pub fn calculate_tier(amount: u64) -> (r: StakingTier)
        ensures
            r == tier_of(amount as int),
    {
        tier_for(amount)
    }

    pub fn get_base_apy(&self) -> (r: u64)
        ensures
            r == base_apy(self.tier),
    {
        self.tier.base_apy()
    }

    pub fn get_lock_multiplier(&self) -> (r: u64)
        ensures
            r == lock_multiplier(self.lock_period),
    {
        self.lock_period.multiplier()
    }

    /// Yearly yield in basis points for this position's tier and lock.
    pub fn calculate_tier_apy(&self) -> (r: u64)
        ensures
            r == effective_apy(self.tier, self.lock_period),
    {
        effective_apy_of(self.tier, self.lock_period)
    }

    /// Rewards accrued since the last stake or claim; `InvalidCalculation`
    /// where they do not fit a `u64`.
    pub fn calculate_pending_rewards(&self, current_time: i64) -> (r: Result<u64, ErrorCode>)
        ensures
            r == accrued_checked(
                self.amount_staked as int,
                effective_apy(self.tier, self.lock_period),
                current_time - self.last_claim_timestamp,
            ),
    {
        let apy = effective_apy_of(self.tier, self.lock_period);
        let elapsed: i128 = current_time as i128 - self.last_claim_timestamp as i128;
        accrue(self.amount_staked, apy, elapsed)
    }
}

/// An absent position, or one whose tier matches its stake.
pub open spec fn slot_wf(slot: Option<UserStake>) -> bool {
    slot matches Some(p) ==> p.wf()
}

/// Lock end recorded by a stake at `now`: 0 for no lock.
pub open spec fn lock_end_for(l: LockPeriod, now: i64) -> int {
    if l == LockPeriod::Unlocked {
        0
    } else {
        now + lock_duration(l)
    }
}

/// The checked additions of a stake of `amount` would overflow.
pub open spec fn stake_overflows(
    pool: StakingPool,
    position: Option<UserStake>,
    amount: u64,
    lock: LockPeriod,
    now: i64,
) -> bool {
    ||| (position matches Some(p) && p.claimable_at(now) > u64::MAX)
    ||| (position matches Some(p) && p.amount_staked + amount > u64::MAX)
    ||| lock_end_for(lock, now) > i64::MAX
    ||| pool.total_staked + amount > u64::MAX
}

/// The position after an accepted stake.
pub open spec fn staked_position(
    position: Option<UserStake>,
    pool_key: Pubkey,
    user: Pubkey,
    amount: u64,
    lock: LockPeriod,
    now: i64,
) -> UserStake {
    match position {
        None => UserStake {
            owner: user,
            pool: pool_key,
            amount_staked: amount,
            pending_rewards: 0,
            rewards_claimed: 0,
            stake_timestamp: now,
            last_claim_timestamp: now,
            lock_end_time: lock_end_for(lock, now) as i64,
            lock_period: lock,
            tier: tier_of(amount as int),
        },
        Some(p) => UserStake {
            amount_staked: (p.amount_staked + amount) as u64,
            pending_rewards: p.claimable_at(now) as u64,
            last_claim_timestamp: now,
            lock_end_time: lock_end_for(lock, now) as i64,
            lock_period: lock,
            tier: tier_of(p.amount_staked + amount),
            ..p
        },
    }
}

/// What `unstake` answers.
pub open spec fn unstake_outcome(
    pool: StakingPool,
    position: Option<UserStake>,
    amount: u64,
    now: i64,
) -> Result<Transfer, ErrorCode> {
    match position {
        None => Err(ErrorCode::AccountClosed),
        Some(p) => if p.locked_at(now) {
            Err(ErrorCode::StakeStillLocked)
        } else if amount > p.amount_staked {
            Err(ErrorCode::InsufficientStake)
        } else if amount > pool.total_staked {
            Err(ErrorCode::InvalidCalculation)
        } else {
            Ok(Transfer { from: Endpoint::Custody, to: Endpoint::Party(p.owner), amount })
        },
    }
}

/// The position after an accepted unstake: closed once nothing is left staked.
pub open spec fn unstaked_position(p: UserStake, amount: u64) -> Option<UserStake> {
    if p.amount_staked == amount {
        None
    } else {
        Some(
            UserStake {
                amount_staked: (p.amount_staked - amount) as u64,
                tier: tier_of(p.amount_staked - amount),
                ..p
            },
        )
    }
}

/// What `claim_rewards` answers.
pub open spec fn claim_outcome(pool: StakingPool, p: UserStake, now: i64) -> Result<
    Transfer,
    ErrorCode,
> {
    if p.claimable_at(now) > u64::MAX {
        Err(ErrorCode::InvalidCalculation)
    } else if p.claimable_at(now) == 0 {
        Err(ErrorCode::NoRewardsToClaim)
    } else if p.rewards_claimed + p.claimable_at(now) > u64::MAX
        || pool.total_rewards_distributed + p.claimable_at(now) > u64::MAX {
        Err(ErrorCode::InvalidCalculation)
    } else {
        Ok(
            Transfer {
                from: Endpoint::Custody,
                to: Endpoint::Party(p.owner),
                amount: p.claimable_at(now) as u64,
            },
        )
    }
}

/// What `compound_rewards` answers: the amount re-staked.
pub open spec fn compound_outcome(p: UserStake, now: i64) -> Result<u64, ErrorCode> {
    if p.claimable_at(now) > u64::MAX {
        Err(ErrorCode::InvalidCalculation)
    } else if p.claimable_at(now) == 0 {
        Err(ErrorCode::NoRewardsToClaim)
    } else if p.amount_staked + p.claimable_at(now) > u64::MAX {
        Err(ErrorCode::InvalidCalculation)
    } else {
        Ok(p.claimable_at(now) as u64)
    }
}

/// A new pool with nothing staked and nothing paid out.
pub fn initialize_staking_pool(
    authority: Pubkey,
    reward_mint: Pubkey,
    reward_rate_per_second: u64,
    now: i64,
) -> (r: StakingPool)
    ensures
        r == (StakingPool {
            authority,
            reward_mint,
            total_staked: 0,
            total_rewards_distributed: 0,
            reward_rate_per_second,
            created_at: now,
            last_update: now,
        }),
{
    StakingPool {
        authority,
        reward_mint,
        total_staked: 0,
        total_rewards_distributed: 0,
        reward_rate_per_second,
        created_at: now,
        last_update: now,
    }
}

/// Adds `amount` to the user's position, opening one if there is none.
/// An existing position first banks the rewards accrued so far. Every stake
/// replaces the lock period and restarts the lock window from `now`. The
/// only refusal is `InvalidCalculation`, where a checked sum would overflow.
pub fn stake(
    pool: &mut StakingPool,
    pool_key: &Pubkey,
    position: &mut Option<UserStake>,
    user: &Pubkey,
    amount: u64,
    lock_period: LockPeriod,
    now: i64,
) -> (r: Result<Transfer, ErrorCode>)
    ensures
        r is Err <==> stake_overflows(*old(pool), *old(position), amount, lock_period, now),
        r is Err ==> {
            &&& r == Err::<Transfer, ErrorCode>(ErrorCode::InvalidCalculation)
            &&& *final(pool) == *old(pool)
            &&& *final(position) == *old(position)
        },
        r is Ok ==> {
            &&& r == Ok::<Transfer, ErrorCode>(
                Transfer { from: Endpoint::Party(*user), to: Endpoint::Custody, amount },
            )
            &&& *final(position) == Some(
                staked_position(*old(position), *pool_key, *user, amount, lock_period, now),
            )
            &&& *final(pool) == (StakingPool {
                total_staked: (old(pool).total_staked + amount) as u64,
                last_update: now,
                ..*old(pool)
            })
        },
        slot_wf(*old(position)) ==> slot_wf(*final(position)),
{
    let mut banked: u64 = 0;
    let mut already: u64 = 0;
    if let Some(p) = *position {
        let fresh = match p.calculate_pending_rewards(now) {
            Ok(v) => v,
            Err(e) => {
                return Err(e);
            },
        };
        if p.pending_rewards > u64::MAX - fresh {
            return Err(ErrorCode::InvalidCalculation);
        }
        banked = p.pending_rewards + fresh;
        already = p.amount_staked;
        if already > u64::MAX - amount {
            return Err(ErrorCode::InvalidCalculation);
        }
    }
    let new_amount = already + amount;
    let lock_end_time: i64 = match lock_period {
        LockPeriod::Unlocked => 0,
        _ => {
            let duration = lock_period.to_seconds();
            if now > i64::MAX - duration {
                return Err(ErrorCode::InvalidCalculation);
            }
            now + duration
        },
    };
    if pool.total_staked > u64::MAX - amount {
        return Err(ErrorCode::InvalidCalculation);
    }
    let tier = tier_for(new_amount);
    let updated = match *position {
        None => UserStake {
            owner: *user,
            pool: *pool_key,
            amount_staked: new_amount,
            pending_rewards: 0,
            rewards_claimed: 0,
            stake_timestamp: now,
            last_claim_timestamp: now,
            lock_end_time,
            lock_period,
            tier,
        },
        Some(p) => UserStake {
            amount_staked: new_amount,
            pending_rewards: banked,
            last_claim_timestamp: now,
            lock_end_time,
            lock_period,
            tier,
            ..p
        },
    };
    *position = Some(updated);
    pool.total_staked = pool.total_staked + amount;
    pool.last_update = now;
    Ok(Transfer { from: Endpoint::Party(*user), to: Endpoint::Custody, amount })
}

/// Everything the position has earned so far, in one checked sum.
fn claimable(position: &UserStake, now: i64) -> (r: Result<u64, ErrorCode>)
    ensures
        r is Ok <==> position.claimable_at(now) <= u64::MAX,
        r matches Ok(v) ==> v == position.claimable_at(now),
        r is Err ==> r == Err::<u64, ErrorCode>(ErrorCode::InvalidCalculation),
{
    let fresh = match position.calculate_pending_rewards(now) {
        Ok(v) => v,
        Err(e) => {
            return Err(e);
        },
    };
    if position.pending_rewards > u64::MAX - fresh {
        return Err(ErrorCode::InvalidCalculation);
    }
    Ok(position.pending_rewards + fresh)
}

/// Pays out the banked and newly accrued rewards and restarts accrual at `now`.
pub fn claim_rewards(pool: &mut StakingPool, position: &mut UserStake, now: i64) -> (r: Result<
    Transfer,
    ErrorCode,
>)
    ensures
        r == claim_outcome(*old(pool), *old(position), now),
        r is Err ==> *final(pool) == *old(pool) && *final(position) == *old(position),
        r matches Ok(t) ==> {
            &&& *final(position) == (UserStake {
                rewards_claimed: (old(position).rewards_claimed + t.amount) as u64,
                pending_rewards: 0,
                last_claim_timestamp: now,
                ..*old(position)
            })
            &&& *final(pool) == (StakingPool {
                total_rewards_distributed: (old(pool).total_rewards_distributed + t.amount) as u64,
                last_update: now,
                ..*old(pool)
            })
        },
        old(position).wf() ==> final(position).wf(),
{
    let total = match claimable(position, now) {
        Ok(v) => v,
        Err(e) => {
            return Err(e);
        },
    };
    if total == 0 {
        return Err(ErrorCode::NoRewardsToClaim);
    }
    if position.rewards_claimed > u64::MAX - total || pool.total_rewards_distributed > u64::MAX
        - total {
        return Err(ErrorCode::InvalidCalculation);
    }
    position.rewards_claimed = position.rewards_claimed + total;
    position.pending_rewards = 0;
    position.last_claim_timestamp = now;
    pool.total_rewards_distributed = pool.total_rewards_distributed + total;
    pool.last_update = now;
    Ok(Transfer { from: Endpoint::Custody, to: Endpoint::Party(position.owner), amount: total })
}

/// Returns `amount` of the stake once the lock has ended. Rewards accrued but
/// not yet claimed are not settled here; a position unstaked to zero is
/// closed (`*position` becomes `None`), and whatever it had not claimed goes
/// with it.
pub fn unstake(pool: &mut StakingPool, position: &mut Option<UserStake>, amount: u64, now: i64) -> (r:
    Result<Transfer, ErrorCode>)
    ensures
        r == unstake_outcome(*old(pool), *old(position), amount, now),
        r is Err ==> *final(pool) == *old(pool) && *final(position) == *old(position),
        r is Ok ==> {
            &&& *final(position) == unstaked_position(old(position)->Some_0, amount)
            &&& *final(pool) == (StakingPool {
                total_staked: (old(pool).total_staked - amount) as u64,
                last_update: now,
                ..*old(pool)
            })
        },
        *old(position) matches Some(p) && p.locked_at(now) ==> r == Err::<Transfer, ErrorCode>(
            ErrorCode::StakeStillLocked,
        ),
        slot_wf(*old(position)) ==> slot_wf(*final(position)),
{
    let p = match *position {
        None => {
            return Err(ErrorCode::AccountClosed);
        },
        Some(p) => p,
    };
    if p.lock_end_time > 0 && now < p.lock_end_time {
        return Err(ErrorCode::StakeStillLocked);
    }
    if amount > p.amount_staked {
        return Err(ErrorCode::InsufficientStake);
    }
    if amount > pool.total_staked {
        return Err(ErrorCode::InvalidCalculation);
    }
    let left = p.amount_staked - amount;
    if left == 0 {
        *position = None;
    } else {
        *position = Some(UserStake { amount_staked: left, tier: tier_for(left), ..p });
    }
    pool.total_staked = pool.total_staked - amount;
    pool.last_update = now;
    Ok(Transfer { from: Endpoint::Custody, to: Endpoint::Party(p.owner), amount })
}

/// Re-stakes the banked and newly accrued rewards without moving funds, and
/// returns how much was added. The pool's `total_staked` is left as it is.
pub fn compound_rewards(position: &mut UserStake, now: i64) -> (r: Result<u64, ErrorCode>)
    ensures
        r == compound_outcome(*old(position), now),
        r is Err ==> *final(position) == *old(position),
        r matches Ok(added) ==> *final(position) == (UserStake {
            amount_staked: (old(position).amount_staked + added) as u64,
            tier: tier_of(old(position).amount_staked + added),
            pending_rewards: 0,
            last_claim_timestamp: now,
            ..*old(position)
        }),
        old(position).wf() ==> final(position).wf(),
{
    let total = match claimable(position, now) {
        Ok(v) => v,
        Err(e) => {
            return Err(e);
        },
    };
    if total == 0 {
        return Err(ErrorCode::NoRewardsToClaim);
    }
    if position.amount_staked > u64::MAX - total {
        return Err(ErrorCode::InvalidCalculation);
    }
    position.amount_staked = position.amount_staked + total;
    position.tier = tier_for(position.amount_staked);
    position.pending_rewards = 0;
    position.last_claim_timestamp = now;
    Ok(total)
}

/// While the lock holds, every unstake fails with `StakeStillLocked`,
/// whatever the amount.
pub proof fn lemma_locked_unstake_fails(pool: StakingPool, p: UserStake, amount: u64, now: i64)
    requires
        p.lock_end_time > 0,
        now < p.lock_end_time,
    ensures
        unstake_outcome(pool, Some(p), amount, now) == Err::<Transfer, ErrorCode>(
            ErrorCode::StakeStillLocked,
        ),
{
}

/// Staking `amount` onto a position and later unstaking the same amount
/// leaves the position in the tier it started in.
pub proof fn lemma_stake_unstake_same_tier(
    p: UserStake,
    pool_key: Pubkey,
    user: Pubkey,
    amount: u64,
    lock: LockPeriod,
    now: i64,
)
    requires
        p.wf(),
        p.amount_staked > 0,
        p.amount_staked + amount <= u64::MAX,
    ensures
        ({
            let q = staked_position(Some(p), pool_key, user, amount, lock, now);
            &&& q.wf()
            &&& unstaked_position(q, amount) matches Some(back) && back.amount_staked
                == p.amount_staked && back.tier == p.tier
        }),
{
}

} // verus!
