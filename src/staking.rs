//! The staking pool: pooled collateral, rewards accrued lazily through a
//! per-share accumulator, cooldown-gated withdrawal, and slashing.
use vstd::prelude::*;
use crate::key::Key;
use vstd::arithmetic::div_mod::{
    lemma_fundamental_div_mod, lemma_mod_pos_bound, lemma_div_is_ordered,
};

verus! {

/// Fixed-point scale of the reward accumulator.
pub const REWARD_PRECISION: u128 = 1_000_000_000_000;

/// Seconds in a 365-day year.
pub const SECONDS_PER_YEAR: u128 = 31_536_000;

/// Basis-point denominator (10000 = 100%).
pub const BPS_DENOMINATOR: u128 = 10000;

#[derive(Clone, Copy, Debug, PartialEq, Eq, Structural)]
pub enum StakingError {
    InsufficientStakeAmount,
    InsufficientStakedBalance,
    CooldownNotElapsed,
    NoPendingUnstake,
    UnstakeAlreadyRequested,
    NoRewardsAvailable,
    PoolPaused,
    UnauthorizedAdmin,
    UnauthorizedSlash,
    InvalidSlashAmount,
    Overflow,
    StakeAccountExists,
    ExcessiveUnstakeAmount,
    InvalidRequestTime,
}

/// Why a staker was slashed.
#[derive(Clone, Copy, Debug, PartialEq, Eq, Structural)]
pub enum SlashReason {
    InvalidVerification,
    MaliciousBehavior,
    Timeout,
    ConsensusViolation,
}

/// The pool that all stakes belong to.
#[derive(Clone, Copy, Debug)]
pub struct StakingPool {
    pub admin: Key,
    pub identity_registry: Key,
    /// The only caller allowed to slash.
    pub verification_oracle: Key,
    pub total_staked: u64,
    pub min_stake_amount: u64,
    /// Annual reward rate in basis points.
    pub reward_rate_bps: u16,
    /// Seconds between an unstake request and its completion.
    pub unstake_cooldown: i64,
    pub last_reward_distribution: i64,
    /// Reward per staked unit, scaled by `REWARD_PRECISION`.
    pub acc_reward_per_share: u128,
    pub paused: bool,
}

/// One staker's position.
#[derive(Clone, Copy, Debug)]
pub struct StakeAccount {
    pub owner: Key,
    pub staked_amount: u64,
    pub staked_at: i64,
    /// Rewards settled but not yet claimed.
    pub pending_rewards: u64,
    /// `staked_amount * acc_reward_per_share / REWARD_PRECISION` as of the
    /// last settlement.
    pub reward_debt: u128,
    /// Time of the open unstake request; 0 when there is none.
    pub unstake_requested_at: i64,
    pub unstake_amount: u64,
    pub total_rewards_claimed: u64,
    pub slash_count: u8,
}

/// Audit record of one slash.
#[derive(Clone, Copy, Debug)]
pub struct SlashRecord {
    pub staker: Key,
    pub amount: u64,
    pub reason: SlashReason,
    pub timestamp: i64,
    pub slashed_by: Key,
}

/// A summary of a position for display.
#[derive(Clone, Copy, Debug)]
pub struct StakeInfo {
    pub staked_amount: u64,
    pub total_rewards: u64,
    pub slash_count: u8,
}

/// Reward earned by `total` staked units over `elapsed` seconds at
/// `rate_bps` per year, rounded down.
pub open spec fn period_reward(elapsed: int, rate_bps: int, total: int) -> int {
    elapsed * rate_bps * total / 31_536_000 / 10000
}

/// Growth of the accumulator when `reward` is shared among `total` units.
pub open spec fn share_of(reward: int, total: int) -> int {
    reward * 1_000_000_000_000 / total
}

/// Accumulated reward of `staked` units at accumulator value `acc`.
pub open spec fn debt_of(staked: int, acc: int) -> int {
    staked * acc / 1_000_000_000_000
}

/// Whether bringing the accumulator up to `now` stays within the integer
/// widths.
pub open spec fn accrual_fits(pool: StakingPool, now: i64) -> bool {
    let elapsed = now - pool.last_reward_distribution;
    let reward = period_reward(elapsed, pool.reward_rate_bps as int, pool.total_staked as int);
    pool.total_staked == 0 || {
        &&& i64::MIN <= elapsed <= i64::MAX
        &&& elapsed > 0 ==> {
            &&& elapsed * pool.reward_rate_bps * pool.total_staked <= u128::MAX
            &&& reward * 1_000_000_000_000 <= u128::MAX
            &&& pool.acc_reward_per_share + share_of(reward, pool.total_staked as int)
                <= u128::MAX
        }
    }
}

/// The pool with its accumulator brought up to `now`. An empty pool only
/// moves its distribution time; a clock that has not advanced changes
/// nothing.
pub open spec fn accrued(pool: StakingPool, now: i64) -> StakingPool {
    let elapsed = now - pool.last_reward_distribution;
    if pool.total_staked == 0 {
        StakingPool { last_reward_distribution: now, ..pool }
    } else if elapsed > 0 {
        let reward = period_reward(elapsed, pool.reward_rate_bps as int, pool.total_staked as int);
        StakingPool {
            acc_reward_per_share: (pool.acc_reward_per_share + share_of(
                reward,
                pool.total_staked as int,
            )) as u128,
            last_reward_distribution: now,
            ..pool
        }
    } else {
        pool
    }
}

/// Rewards that a position has earned since its last settlement, at the
/// pool's accumulator; never negative. Each settling operation (`stake`,
/// `complete_unstake`, `claim_rewards`) adds exactly this to the position's
/// `total_rewards_claimed + pending_rewards`, and `slash` adds nothing.
pub open spec fn owed(account: StakeAccount, pool: StakingPool) -> int {
    let earned = debt_of(account.staked_amount as int, pool.acc_reward_per_share as int);
    if account.staked_amount == 0 || earned <= account.reward_debt {
        0
    } else {
        earned - account.reward_debt
    }
}

/// Whether `owed` can be computed and paid in the integer widths.
pub open spec fn owed_fits(account: StakeAccount, pool: StakingPool) -> bool {
    account.staked_amount == 0 || (account.staked_amount * pool.acc_reward_per_share
        <= u128::MAX && owed(account, pool) <= u64::MAX)
}

/// Sets up the pool, empty and unpaused.
pub fn initialize_pool(
    admin: Key,
    min_stake_amount: u64,
    reward_rate_bps: u16,
    unstake_cooldown: i64,
    identity_registry: Key,
    verification_oracle: Key,
    now: i64,
) -> (r: StakingPool)
    ensures
        r == (StakingPool {
            admin,
            identity_registry,
            verification_oracle,
            total_staked: 0,
            min_stake_amount,
            reward_rate_bps,
            unstake_cooldown,
            last_reward_distribution: now,
            acc_reward_per_share: 0,
            paused: false,
        }),
{
    StakingPool {
        admin,
        identity_registry,
        verification_oracle,
        total_staked: 0,
        min_stake_amount,
        reward_rate_bps,
        unstake_cooldown,
        last_reward_distribution: now,
        acc_reward_per_share: 0,
        paused: false,
    }
}

impl StakeAccount {
    /// A position of `owner` holding nothing.
    pub fn new(owner: Key) -> (r: StakeAccount)
        ensures
            r == (StakeAccount {
                owner,
                staked_amount: 0,
                staked_at: 0,
                pending_rewards: 0,
                reward_debt: 0,
                unstake_requested_at: 0,
                unstake_amount: 0,
                total_rewards_claimed: 0,
                slash_count: 0,
            }),
    {
        StakeAccount {
            owner,
            staked_amount: 0,
            staked_at: 0,
            pending_rewards: 0,
            reward_debt: 0,
            unstake_requested_at: 0,
            unstake_amount: 0,
            total_rewards_claimed: 0,
            slash_count: 0,
        }
    }
}

/// Brings the accumulator up to `now`. The reward of the elapsed period,
/// `elapsed * reward_rate_bps * total_staked / (SECONDS_PER_YEAR * 10000)`,
/// is shared out per staked unit; the accumulator then never credits the
/// whole stake with more than that reward, and the same period is never
/// credited twice. On overflow nothing changes.
pub fn update_pool_rewards(pool: &mut StakingPool, now: i64) -> (r: Result<(), StakingError>)
    ensures
        r is Ok <==> accrual_fits(*old(pool), now),
        r is Ok ==> *final(pool) == accrued(*old(pool), now),
        r is Err ==> r == Err::<(), StakingError>(StakingError::Overflow),
        r is Err ==> *final(pool) == *old(pool),
        r is Ok && now > old(pool).last_reward_distribution ==> (final(pool).acc_reward_per_share
            - old(pool).acc_reward_per_share)
            * old(pool).total_staked <= period_reward(
            now - old(pool).last_reward_distribution,
            old(pool).reward_rate_bps as int,
            old(pool).total_staked as int,
        ) * REWARD_PRECISION,
{
    if pool.total_staked == 0 {
        pool.last_reward_distribution = now;
        return Ok(());
    }
    let elapsed = match now.checked_sub(pool.last_reward_distribution) {
        Some(e) => e,
        None => {
            return Err(StakingError::Overflow);
        },
    };
    if elapsed > 0 {
        let total = pool.total_staked as u128;
        let rate = pool.reward_rate_bps as u128;
        proof {
            assert((elapsed as int) * (rate as int) <= u128::MAX) by (nonlinear_arith)
                requires
                    0 < elapsed < 0x8000_0000_0000_0000,
                    0 <= rate < 0x1_0000,
            ;
        }
        let product = match ((elapsed as u128) * rate).checked_mul(total) {
            Some(v) => v,
            None => {
                return Err(StakingError::Overflow);
            },
        };
        let reward = product / SECONDS_PER_YEAR / BPS_DENOMINATOR;
        let scaled = match reward.checked_mul(REWARD_PRECISION) {
            Some(v) => v,
            None => {
                return Err(StakingError::Overflow);
            },
        };
        let share = scaled / total;
        let acc = match pool.acc_reward_per_share.checked_add(share) {
            Some(v) => v,
            None => {
                return Err(StakingError::Overflow);
            },
        };
        proof {
            let t = total as int;
            let s = scaled as int;
            assert(t * (s / t) <= s) by (nonlinear_arith)
                requires
                    t > 0,
                    s >= 0,
            ;
            assert((s / t) * t <= s) by (nonlinear_arith)
                requires
                    t > 0,
                    s >= 0,
            ;
        }
        pool.acc_reward_per_share = acc;
        pool.last_reward_distribution = now;
    }
    Ok(())
}

/// Rewards that `account` has earned since its last settlement:
/// `staked_amount * acc_reward_per_share / REWARD_PRECISION - reward_debt`,
/// or zero when that is negative.
pub fn calculate_pending_rewards(account: &StakeAccount, pool: &StakingPool) -> (r: Result<
    u64,
    StakingError,
>)
    ensures
        r is Ok <==> owed_fits(*account, *pool),
        r is Ok ==> r->Ok_0 == owed(*account, *pool),
        r is Err ==> r == Err::<u64, StakingError>(StakingError::Overflow),
{
    if account.staked_amount == 0 {
        return Ok(0);
    }
    let product = match (account.staked_amount as u128).checked_mul(pool.acc_reward_per_share) {
        Some(v) => v,
        None => {
            return Err(StakingError::Overflow);
        },
    };
    let earned = product / REWARD_PRECISION;
    let pending: u128 = if earned > account.reward_debt {
        earned - account.reward_debt
    } else {
        0
    };
    if pending > u64::MAX as u128 {
        return Err(StakingError::Overflow);
    }
    Ok(pending as u64)
}

/// `staked * acc / REWARD_PRECISION`, when the product fits.
fn debt_for(staked: u64, acc: u128) -> (r: Option<u128>)
    ensures
        r is Some <==> staked * acc <= u128::MAX,
        r is Some ==> r->Some_0 == debt_of(staked as int, acc as int),
{
    match (staked as u128).checked_mul(acc) {
        Some(v) => Some(v / REWARD_PRECISION),
        None => None,
    }
}

/// Whether a stake of `amount` at `now` stays within the integer widths.
pub open spec fn stake_fits(
    pool: StakingPool,
    account: StakeAccount,
    amount: u64,
    now: i64,
) -> bool {
    let p = accrued(pool, now);
    &&& accrual_fits(pool, now)
    &&& owed_fits(account, p)
    &&& account.pending_rewards + owed(account, p) <= u64::MAX
    &&& account.staked_amount + amount <= u64::MAX
    &&& (account.staked_amount + amount) * p.acc_reward_per_share <= u128::MAX
    &&& pool.total_staked + amount <= u64::MAX
}

/// Adds `amount` to the position of `owner`. The pool is brought up to
/// date first and the rewards earned so far are settled into
/// `pending_rewards`; the reward debt is then taken at the new stake. The
/// caller moves `amount` into the pool's vault.
pub fn stake(
    pool: &mut StakingPool,
    account: &mut StakeAccount,
    owner: Key,
    amount: u64,
    now: i64,
) -> (r: Result<(), StakingError>)
    ensures
        old(pool).paused ==> r == Err::<(), StakingError>(StakingError::PoolPaused),
        !old(pool).paused && amount < old(pool).min_stake_amount ==> r == Err::<(), StakingError>(
            StakingError::InsufficientStakeAmount,
        ),
        !old(pool).paused && amount >= old(pool).min_stake_amount ==> (r is Ok <==> stake_fits(
            *old(pool),
            *old(account),
            amount,
            now,
        )),
        !old(pool).paused && amount >= old(pool).min_stake_amount && r is Err ==> r == Err::<
            (),
            StakingError,
        >(StakingError::Overflow),
        r is Err ==> *final(pool) == *old(pool) && *final(account) == *old(account),
        r is Ok ==> ({
            let p = accrued(*old(pool), now);
            let staked = old(account).staked_amount + amount;
            &&& *final(pool) == (StakingPool {
                total_staked: (old(pool).total_staked + amount) as u64,
                ..p
            })
            &&& *final(account) == (StakeAccount {
                owner,
                staked_amount: staked as u64,
                staked_at: now,
                pending_rewards: (old(account).pending_rewards + owed(*old(account), p)) as u64,
                reward_debt: debt_of(staked, p.acc_reward_per_share as int) as u128,
                ..*old(account)
            })
        }),
        r is Ok ==> final(account).reward_debt == debt_of(
            final(account).staked_amount as int,
            final(pool).acc_reward_per_share as int,
        ),
        r is Ok ==> final(account).total_rewards_claimed + final(account).pending_rewards
            == old(account).total_rewards_claimed + old(account).pending_rewards + owed(
            *old(account),
            accrued(*old(pool), now),
        ),
{
    if pool.paused {
        return Err(StakingError::PoolPaused);
    }
    if amount < pool.min_stake_amount {
        return Err(StakingError::InsufficientStakeAmount);
    }
    let mut p = *pool;
    match update_pool_rewards(&mut p, now) {
        Ok(()) => {},
        Err(e) => {
            return Err(e);
        },
    }
    let mut a = *account;
    let pending = match calculate_pending_rewards(&a, &p) {
        Ok(v) => v,
        Err(e) => {
            return Err(e);
        },
    };
    a.pending_rewards = match a.pending_rewards.checked_add(pending) {
        Some(v) => v,
        None => {
            return Err(StakingError::Overflow);
        },
    };
    a.owner = owner;
    a.staked_amount = match a.staked_amount.checked_add(amount) {
        Some(v) => v,
        None => {
            return Err(StakingError::Overflow);
        },
    };
    a.staked_at = now;
    a.reward_debt = match debt_for(a.staked_amount, p.acc_reward_per_share) {
        Some(v) => v,
        None => {
            return Err(StakingError::Overflow);
        },
    };
    p.total_staked = match p.total_staked.checked_add(amount) {
        Some(v) => v,
        None => {
            return Err(StakingError::Overflow);
        },
    };
    *pool = p;
    *account = a;
    Ok(())
}

/// Opens a request to withdraw `amount`; no funds move until it completes.
/// The request time must not be 0, since a time of 0 marks "no request".
pub fn request_unstake(
    pool: &StakingPool,
    account: &mut StakeAccount,
    amount: u64,
    now: i64,
) -> (r: Result<(), StakingError>)
    ensures
        pool.paused ==> r == Err::<(), StakingError>(StakingError::PoolPaused),
        !pool.paused && old(account).unstake_requested_at != 0 ==> r == Err::<(), StakingError>(
            StakingError::UnstakeAlreadyRequested,
        ),
        !pool.paused && old(account).unstake_requested_at == 0 && amount
            > old(account).staked_amount ==> r == Err::<(), StakingError>(
            StakingError::ExcessiveUnstakeAmount,
        ),
        !pool.paused && old(account).unstake_requested_at == 0 && amount == 0 ==> r == Err::<
            (),
            StakingError,
        >(StakingError::InsufficientStakedBalance),
        !pool.paused && old(account).unstake_requested_at == 0 && 0 < amount
            <= old(account).staked_amount && now == 0 ==> r == Err::<(), StakingError>(
            StakingError::InvalidRequestTime,
        ),
        r is Ok <==> !pool.paused && old(account).unstake_requested_at == 0 && 0 < amount
            <= old(account).staked_amount && now != 0,
        r is Err ==> *final(account) == *old(account),
        r is Ok ==> *final(account) == (StakeAccount {
            unstake_requested_at: now,
            unstake_amount: amount,
            ..*old(account)
        }),
{
    if pool.paused {
        return Err(StakingError::PoolPaused);
    }
    if account.unstake_requested_at != 0 {
        return Err(StakingError::UnstakeAlreadyRequested);
    }
    if amount > account.staked_amount {
        return Err(StakingError::ExcessiveUnstakeAmount);
    }
    if amount == 0 {
        return Err(StakingError::InsufficientStakedBalance);
    }
    if now == 0 {
        return Err(StakingError::InvalidRequestTime);
    }
    account.unstake_requested_at = now;
    account.unstake_amount = amount;
    Ok(())
}

/// Whether completing the open unstake request at `now`, once the cooldown
/// allows it, stays within the integer widths and the stakes held.
pub open spec fn unstake_fits(pool: StakingPool, account: StakeAccount, now: i64) -> bool {
    let p = accrued(pool, now);
    &&& accrual_fits(pool, now)
    &&& owed_fits(account, p)
    &&& account.pending_rewards + owed(account, p) <= u64::MAX
    &&& account.unstake_amount <= account.staked_amount
    &&& (account.staked_amount - account.unstake_amount) * p.acc_reward_per_share <= u128::MAX
    &&& account.unstake_amount <= pool.total_staked
}

/// Completes the open unstake request once its cooldown has passed, and
/// returns the amount that the caller moves out of the pool's vault. The
/// rewards earned so far are settled first.
pub fn complete_unstake(pool: &mut StakingPool, account: &mut StakeAccount, now: i64) -> (r:
    Result<u64, StakingError>)
    ensures
        old(pool).paused ==> r == Err::<u64, StakingError>(StakingError::PoolPaused),
        !old(pool).paused && old(account).unstake_requested_at == 0 ==> r == Err::<
            u64,
            StakingError,
        >(StakingError::NoPendingUnstake),
        ({
            let end = old(account).unstake_requested_at + old(pool).unstake_cooldown;
            &&& !old(pool).paused && old(account).unstake_requested_at != 0 && !(i64::MIN <= end
                <= i64::MAX) ==> r == Err::<u64, StakingError>(StakingError::Overflow)
            &&& !old(pool).paused && old(account).unstake_requested_at != 0 && i64::MIN <= end
                <= i64::MAX && now < end ==> r == Err::<u64, StakingError>(
                StakingError::CooldownNotElapsed,
            )
            &&& now < end ==> r is Err
            &&& !old(pool).paused && old(account).unstake_requested_at != 0 && i64::MIN <= end
                <= i64::MAX
                && now >= end ==> (r is Ok <==> unstake_fits(*old(pool), *old(account), now))
        }),
        r is Err ==> *final(pool) == *old(pool) && *final(account) == *old(account),
        r is Ok ==> ({
            let p = accrued(*old(pool), now);
            let staked = old(account).staked_amount - old(account).unstake_amount;
            &&& r->Ok_0 == old(account).unstake_amount
            &&& *final(pool) == (StakingPool {
                total_staked: (old(pool).total_staked - old(account).unstake_amount) as u64,
                ..p
            })
            &&& *final(account) == (StakeAccount {
                staked_amount: staked as u64,
                pending_rewards: (old(account).pending_rewards + owed(*old(account), p)) as u64,
                reward_debt: debt_of(staked, p.acc_reward_per_share as int) as u128,
                unstake_requested_at: 0,
                unstake_amount: 0,
                ..*old(account)
            })
        }),
        r is Ok ==> final(account).total_rewards_claimed + final(account).pending_rewards
            == old(account).total_rewards_claimed + old(account).pending_rewards + owed(
            *old(account),
            accrued(*old(pool), now),
        ),
{
    if pool.paused {
        return Err(StakingError::PoolPaused);
    }
    if account.unstake_requested_at == 0 {
        return Err(StakingError::NoPendingUnstake);
    }
    let cooldown_end = match account.unstake_requested_at.checked_add(pool.unstake_cooldown) {
        Some(v) => v,
        None => {
            return Err(StakingError::Overflow);
        },
    };
    if now < cooldown_end {
        return Err(StakingError::CooldownNotElapsed);
    }
    let amount = account.unstake_amount;
    let mut p = *pool;
    match update_pool_rewards(&mut p, now) {
        Ok(()) => {},
        Err(e) => {
            return Err(e);
        },
    }
    let mut a = *account;
    let pending = match calculate_pending_rewards(&a, &p) {
        Ok(v) => v,
        Err(e) => {
            return Err(e);
        },
    };
    a.pending_rewards = match a.pending_rewards.checked_add(pending) {
        Some(v) => v,
        None => {
            return Err(StakingError::Overflow);
        },
    };
    a.staked_amount = match a.staked_amount.checked_sub(amount) {
        Some(v) => v,
        None => {
            return Err(StakingError::Overflow);
        },
    };
    a.unstake_requested_at = 0;
    a.unstake_amount = 0;
    a.reward_debt = match debt_for(a.staked_amount, p.acc_reward_per_share) {
        Some(v) => v,
        None => {
            return Err(StakingError::Overflow);
        },
    };
    p.total_staked = match p.total_staked.checked_sub(amount) {
        Some(v) => v,
        None => {
            return Err(StakingError::Overflow);
        },
    };
    *pool = p;
    *account = a;
    Ok(amount)
}

/// Whether the rewards due at `now` can be settled in the integer widths.
pub open spec fn settle_fits(pool: StakingPool, account: StakeAccount, now: i64) -> bool {
    &&& accrual_fits(pool, now)
    &&& owed_fits(account, accrued(pool, now))
    &&& account.pending_rewards + owed(account, accrued(pool, now)) <= u64::MAX
}

/// All rewards due at `now`: those settled before and those earned since.
pub open spec fn rewards_due(pool: StakingPool, account: StakeAccount, now: i64) -> int {
    account.pending_rewards + owed(account, accrued(pool, now))
}

/// Pays out every reward due and returns the amount, which the caller moves
/// out of the pool's vault.
pub fn claim_rewards(pool: &mut StakingPool, account: &mut StakeAccount, now: i64) -> (r: Result<
    u64,
    StakingError,
>)
    ensures
        old(pool).paused ==> r == Err::<u64, StakingError>(StakingError::PoolPaused),
        !old(pool).paused && !settle_fits(*old(pool), *old(account), now) ==> r == Err::<
            u64,
            StakingError,
        >(StakingError::Overflow),
        !old(pool).paused && settle_fits(*old(pool), *old(account), now) && rewards_due(
            *old(pool),
            *old(account),
            now,
        ) == 0 ==> r == Err::<u64, StakingError>(StakingError::NoRewardsAvailable),
        !old(pool).paused && settle_fits(*old(pool), *old(account), now) && rewards_due(
            *old(pool),
            *old(account),
            now,
        ) > 0 ==> (r is Ok <==> old(account).total_rewards_claimed + rewards_due(
            *old(pool),
            *old(account),
            now,
        ) <= u64::MAX),
        r is Err && !old(pool).paused && settle_fits(*old(pool), *old(account), now) && rewards_due(
            *old(pool),
            *old(account),
            now,
        ) > 0 ==> r == Err::<u64, StakingError>(StakingError::Overflow),
        r is Err ==> *final(pool) == *old(pool) && *final(account) == *old(account),
        r is Ok ==> ({
            let p = accrued(*old(pool), now);
            let paid = rewards_due(*old(pool), *old(account), now);
            &&& r->Ok_0 == paid
            &&& *final(pool) == p
            &&& *final(account) == (StakeAccount {
                pending_rewards: 0,
                reward_debt: debt_of(
                    old(account).staked_amount as int,
                    p.acc_reward_per_share as int,
                ) as u128,
                total_rewards_claimed: (old(account).total_rewards_claimed + paid) as u64,
                ..*old(account)
            })
        }),
        r is Ok ==> final(account).total_rewards_claimed + final(account).pending_rewards
            == old(account).total_rewards_claimed + old(account).pending_rewards + owed(
            *old(account),
            accrued(*old(pool), now),
        ),
{
    if pool.paused {
        return Err(StakingError::PoolPaused);
    }
    let mut p = *pool;
    match update_pool_rewards(&mut p, now) {
        Ok(()) => {},
        Err(e) => {
            return Err(e);
        },
    }
    let mut a = *account;
    let pending = match calculate_pending_rewards(&a, &p) {
        Ok(v) => v,
        Err(e) => {
            return Err(e);
        },
    };
    let total = match a.pending_rewards.checked_add(pending) {
        Some(v) => v,
        None => {
            return Err(StakingError::Overflow);
        },
    };
    if total == 0 {
        return Err(StakingError::NoRewardsAvailable);
    }
    a.pending_rewards = 0;
    a.reward_debt = match debt_for(a.staked_amount, p.acc_reward_per_share) {
        Some(v) => v,
        None => {
            return Err(StakingError::Overflow);
        },
    };
    a.total_rewards_claimed = match a.total_rewards_claimed.checked_add(total) {
        Some(v) => v,
        None => {
            return Err(StakingError::Overflow);
        },
    };
    *pool = p;
    *account = a;
    Ok(total)
}

/// Whether slashing `amount` at `now` stays within the integer widths and
/// the pool's total.
pub open spec fn slash_fits(
    pool: StakingPool,
    account: StakeAccount,
    amount: u64,
    now: i64,
) -> bool {
    &&& accrual_fits(pool, now)
    &&& account.slash_count < u8::MAX
    &&& (account.staked_amount - amount) * accrued(pool, now).acc_reward_per_share <= u128::MAX
    &&& amount <= pool.total_staked
}

/// Removes `amount` from a position as a penalty; only the configured
/// verification oracle may call it. The slashed funds leave the pool's
/// accounting. Rewards earned since the last settlement are forfeited.
pub fn slash(
    pool: &mut StakingPool,
    account: &mut StakeAccount,
    caller: &Key,
    amount: u64,
    reason: SlashReason,
    now: i64,
) -> (r: Result<SlashRecord, StakingError>)
    ensures
        caller@ != old(pool).verification_oracle@ ==> r == Err::<SlashRecord, StakingError>(
            StakingError::UnauthorizedSlash,
        ),
        caller@ == old(pool).verification_oracle@ && (amount == 0 || amount
            > old(account).staked_amount) ==> r == Err::<SlashRecord, StakingError>(
            StakingError::InvalidSlashAmount,
        ),
        caller@ == old(pool).verification_oracle@ && 0 < amount <= old(account).staked_amount
            ==> (r is Ok <==> slash_fits(*old(pool), *old(account), amount, now)),
        caller@ == old(pool).verification_oracle@ && 0 < amount <= old(account).staked_amount
            && r is Err ==> r == Err::<SlashRecord, StakingError>(StakingError::Overflow),
        r is Err ==> *final(pool) == *old(pool) && *final(account) == *old(account),
        r is Ok ==> ({
            let p = accrued(*old(pool), now);
            let staked = old(account).staked_amount - amount;
            &&& *final(pool) == (StakingPool {
                total_staked: (old(pool).total_staked - amount) as u64,
                ..p
            })
            &&& *final(account) == (StakeAccount {
                staked_amount: staked as u64,
                slash_count: (old(account).slash_count + 1) as u8,
                reward_debt: debt_of(staked, p.acc_reward_per_share as int) as u128,
                ..*old(account)
            })
            &&& r->Ok_0 == (SlashRecord {
                staker: old(account).owner,
                amount,
                reason,
                timestamp: now,
                slashed_by: *caller,
            })
        }),
        r is Ok ==> final(account).total_rewards_claimed + final(account).pending_rewards
            == old(account).total_rewards_claimed + old(account).pending_rewards,
{
    if !caller.same(&pool.verification_oracle) {
        return Err(StakingError::UnauthorizedSlash);
    }
    if amount == 0 || amount > account.staked_amount {
        return Err(StakingError::InvalidSlashAmount);
    }
    let mut p = *pool;
    match update_pool_rewards(&mut p, now) {
        Ok(()) => {},
        Err(e) => {
            return Err(e);
        },
    }
    let mut a = *account;
    a.staked_amount = a.staked_amount - amount;
    a.slash_count = match a.slash_count.checked_add(1) {
        Some(v) => v,
        None => {
            return Err(StakingError::Overflow);
        },
    };
    a.reward_debt = match debt_for(a.staked_amount, p.acc_reward_per_share) {
        Some(v) => v,
        None => {
            return Err(StakingError::Overflow);
        },
    };
    p.total_staked = match p.total_staked.checked_sub(amount) {
        Some(v) => v,
        None => {
            return Err(StakingError::Overflow);
        },
    };
    *pool = p;
    *account = a;
    Ok(
        SlashRecord {
            staker: a.owner,
            amount,
            reason,
            timestamp: now,
            slashed_by: *caller,
        },
    )
}

/// Replaces the given settings; only the admin may call it.
pub fn update_pool_config(
    pool: &mut StakingPool,
    caller: &Key,
    min_stake_amount: Option<u64>,
    reward_rate_bps: Option<u16>,
    unstake_cooldown: Option<i64>,
) -> (r: Result<(), StakingError>)
    ensures
        r is Err <==> caller@ != old(pool).admin@,
        r is Err ==> r == Err::<(), StakingError>(StakingError::UnauthorizedAdmin) && *final(pool)
            == *old(pool),
        r is Ok ==> *final(pool) == (StakingPool {
            min_stake_amount: min_stake_amount.unwrap_or(old(pool).min_stake_amount),
            reward_rate_bps: reward_rate_bps.unwrap_or(old(pool).reward_rate_bps),
            unstake_cooldown: unstake_cooldown.unwrap_or(old(pool).unstake_cooldown),
            ..*old(pool)
        }),
{
    if !caller.same(&pool.admin) {
        return Err(StakingError::UnauthorizedAdmin);
    }
    if let Some(amount) = min_stake_amount {
        pool.min_stake_amount = amount;
    }
    if let Some(rate) = reward_rate_bps {
        pool.reward_rate_bps = rate;
    }
    if let Some(cooldown) = unstake_cooldown {
        pool.unstake_cooldown = cooldown;
    }
    Ok(())
}

/// Pauses or resumes the pool; only the admin may call it.
pub fn set_pool_paused(pool: &mut StakingPool, caller: &Key, paused: bool) -> (r: Result<
    (),
    StakingError,
>)
    ensures
        r is Err <==> caller@ != old(pool).admin@,
        r is Err ==> r == Err::<(), StakingError>(StakingError::UnauthorizedAdmin) && *final(pool)
            == *old(pool),
        r is Ok ==> *final(pool) == (StakingPool { paused, ..*old(pool) }),
{
    if !caller.same(&pool.admin) {
        return Err(StakingError::UnauthorizedAdmin);
    }
    pool.paused = paused;
    Ok(())
}

/// The stake, the rewards due at the pool's current accumulator (zero
/// when they exceed the integer width) and the slash count of a position.
pub fn get_stake_info(pool: &StakingPool, account: &StakeAccount) -> (r: Result<
    StakeInfo,
    StakingError,
>)
    ensures
        r is Ok <==> owed_fits(*account, *pool),
        r is Err ==> r == Err::<StakeInfo, StakingError>(StakingError::Overflow),
        r is Ok ==> ({
            let due = account.pending_rewards + owed(*account, *pool);
            r->Ok_0 == (StakeInfo {
                staked_amount: account.staked_amount,
                total_rewards: if due <= u64::MAX {
                    due as u64
                } else {
                    0
                },
                slash_count: account.slash_count,
            })
        }),
{
    let pending = match calculate_pending_rewards(account, pool) {
        Ok(v) => v,
        Err(e) => {
            return Err(e);
        },
    };
    let total_rewards = match account.pending_rewards.checked_add(pending) {
        Some(v) => v,
        None => 0,
    };
    Ok(
        StakeInfo {
            staked_amount: account.staked_amount,
            total_rewards,
            slash_count: account.slash_count,
        },
    )
}

/// Total stake of a list of positions.
pub open spec fn total_of(stakes: Seq<u64>) -> int
    decreases stakes.len(),
{
    if stakes.len() == 0 {
        0
    } else {
        total_of(stakes.drop_last()) + stakes.last()
    }
}

/// What positions holding `stakes` earn together while the accumulator
/// moves from `acc0` to `acc1`, each having taken its reward debt at `acc0`.
pub open spec fn earned_by_all(stakes: Seq<u64>, acc0: int, acc1: int) -> int
    decreases stakes.len(),
{
    if stakes.len() == 0 {
        0
    } else {
        earned_by_all(stakes.drop_last(), acc0, acc1) + debt_of(stakes.last() as int, acc1)
            - debt_of(stakes.last() as int, acc0)
    }
}

/// One position's accrual exceeds its exact share by less than one unit.
proof fn lemma_accrual_rounding(s: int, acc0: int, acc1: int)
    requires
        s >= 0,
        0 <= acc0 <= acc1,
    ensures
        debt_of(s, acc0) <= debt_of(s, acc1),
        (debt_of(s, acc1) - debt_of(s, acc0)) * REWARD_PRECISION <= s * (acc1 - acc0)
            + REWARD_PRECISION - 1,
{
    let p = REWARD_PRECISION as int;
    let x = s * acc0;
    let y = s * acc1;
    assert(x <= y) by (nonlinear_arith)
        requires
            s >= 0,
            acc0 <= acc1,
            x == s * acc0,
            y == s * acc1,
    ;
    assert(y - x == s * (acc1 - acc0)) by (nonlinear_arith)
        requires
            x == s * acc0,
            y == s * acc1,
    ;
    lemma_fundamental_div_mod(x, p);
    lemma_fundamental_div_mod(y, p);
    lemma_mod_pos_bound(x, p);
    lemma_mod_pos_bound(y, p);
    lemma_div_is_ordered(x, y, p);
    let fx = x / p;
    let fy = y / p;
    assert((fy - fx) * p == p * fy - p * fx) by (nonlinear_arith);
}

/// Over many positions the rounding adds up to under one unit each.
proof fn lemma_earned_by_all_bound(stakes: Seq<u64>, acc0: int, acc1: int)
    requires
        0 <= acc0 <= acc1,
    ensures
        earned_by_all(stakes, acc0, acc1) * REWARD_PRECISION <= total_of(stakes) * (acc1 - acc0)
            + stakes.len() * (REWARD_PRECISION - 1),
        total_of(stakes) >= 0,
    decreases stakes.len(),
{
    if stakes.len() > 0 {
        let rest = stakes.drop_last();
        let s = stakes.last() as int;
        lemma_earned_by_all_bound(rest, acc0, acc1);
        lemma_accrual_rounding(s, acc0, acc1);
        let d = acc1 - acc0;
        let e = earned_by_all(rest, acc0, acc1);
        let one = debt_of(s, acc1) - debt_of(s, acc0);
        assert((e + one) * REWARD_PRECISION == e * REWARD_PRECISION + one * REWARD_PRECISION)
            by (nonlinear_arith);
        assert((total_of(rest) + s) * d == total_of(rest) * d + s * d) by (nonlinear_arith);
        assert(stakes.len() * (REWARD_PRECISION - 1) == rest.len() * (REWARD_PRECISION - 1)
            + (REWARD_PRECISION - 1)) by (nonlinear_arith)
            requires
                stakes.len() == rest.len() + 1,
        ;
    }
}

/// Rewards are never over-accrued. When the accumulator grows by at most a
/// period's reward shared over the pool's stake, as `update_pool_rewards`
/// ensures, the positions making up that stake together earn at most that
/// reward, plus less than one unit of rounding per position.
pub proof fn lemma_no_over_accrual(
    stakes: Seq<u64>,
    total_staked: u64,
    acc0: u128,
    acc1: u128,
    reward: int,
)
    requires
        total_of(stakes) <= total_staked,
        acc0 <= acc1,
        (acc1 - acc0) * total_staked <= reward * REWARD_PRECISION,
    ensures
        earned_by_all(stakes, acc0 as int, acc1 as int) * REWARD_PRECISION <= reward
            * REWARD_PRECISION + stakes.len() * (REWARD_PRECISION - 1),
        earned_by_all(stakes, acc0 as int, acc1 as int) <= reward + stakes.len(),
{
    lemma_earned_by_all_bound(stakes, acc0 as int, acc1 as int);
    let d = acc1 - acc0;
    let t = total_of(stakes);
    assert(t * d <= total_staked * d) by (nonlinear_arith)
        requires
            0 <= t <= total_staked,
            d >= 0,
    ;
    let e = earned_by_all(stakes, acc0 as int, acc1 as int);
    let n = stakes.len() as int;
    assert(e <= reward + n) by (nonlinear_arith)
        requires
            e * 1_000_000_000_000 <= reward * 1_000_000_000_000 + n * (1_000_000_000_000 - 1),
            n >= 0,
    ;
}

/// What the positions earn over a history of accrual periods: in period
/// `i` they hold `stakes[i]` while the accumulator moves from `accs[i]` to
/// `accs[i + 1]`.
pub open spec fn earned_over(stakes: Seq<Seq<u64>>, accs: Seq<u128>) -> int
    decreases stakes.len(),
{
    if stakes.len() == 0 {
        0
    } else {
        let n = stakes.len() - 1;
        earned_over(stakes.drop_last(), accs.subrange(0, n + 1)) + earned_by_all(
            stakes.last(),
            accs[n] as int,
            accs[n + 1] as int,
        )
    }
}

/// Sum of a list of rewards.
pub open spec fn sum_of(rewards: Seq<int>) -> int
    decreases rewards.len(),
{
    if rewards.len() == 0 {
        0
    } else {
        sum_of(rewards.drop_last()) + rewards.last()
    }
}

/// Number of position-periods in a history.
pub open spec fn positions_over(stakes: Seq<Seq<u64>>) -> int
    decreases stakes.len(),
{
    if stakes.len() == 0 {
        0
    } else {
        positions_over(stakes.drop_last()) + stakes.last().len()
    }
}

/// Rewards are never over-accrued over a whole history. When, in every
/// period `i`, the positions hold at most the pool's stake `totals[i]` and
/// the accumulator grows by at most `rewards[i]` shared over that stake (as
/// `update_pool_rewards` ensures of each call), everything the positions
/// earn over the history is at most the sum of the period rewards, plus
/// less than one unit of rounding per position and period.
pub proof fn lemma_no_over_accrual_over_history(
    stakes: Seq<Seq<u64>>,
    totals: Seq<u64>,
    accs: Seq<u128>,
    rewards: Seq<int>,
)
    requires
        totals.len() == stakes.len(),
        rewards.len() == stakes.len(),
        accs.len() == stakes.len() + 1,
        forall|i: int|
            0 <= i < stakes.len() ==> {
                &&& total_of(#[trigger] stakes[i]) <= totals[i]
                &&& accs[i] <= accs[i + 1]
                &&& (accs[i + 1] - accs[i]) * totals[i] <= rewards[i] * REWARD_PRECISION
            },
    ensures
        earned_over(stakes, accs) <= sum_of(rewards) + positions_over(stakes),
    decreases stakes.len(),
{
    if stakes.len() > 0 {
        let n = stakes.len() - 1;
        let head = accs.subrange(0, n + 1);
        assert forall|i: int| 0 <= i < n implies {
            &&& total_of(#[trigger] stakes.drop_last()[i]) <= totals.drop_last()[i]
            &&& head[i] <= head[i + 1]
            &&& (head[i + 1] - head[i]) * totals.drop_last()[i] <= rewards.drop_last()[i]
                * REWARD_PRECISION
        } by {
            assert(stakes.drop_last()[i] == stakes[i]);
        }
        lemma_no_over_accrual_over_history(
            stakes.drop_last(),
            totals.drop_last(),
            head,
            rewards.drop_last(),
        );
        assert(total_of(stakes[n]) <= totals[n]);
        lemma_no_over_accrual(stakes.last(), totals[n], accs[n], accs[n + 1], rewards[n]);
    }
}

/// A position whose reward debt was taken at accumulator value `acc0` is
/// owed exactly what it has accrued since.
pub proof fn lemma_owed_since_debt(account: StakeAccount, pool: StakingPool, acc0: u128)
    requires
        account.reward_debt == debt_of(account.staked_amount as int, acc0 as int),
        acc0 <= pool.acc_reward_per_share,
    ensures
        owed(account, pool) == debt_of(
            account.staked_amount as int,
            pool.acc_reward_per_share as int,
        ) - debt_of(account.staked_amount as int, acc0 as int),
{
    lemma_accrual_rounding(
        account.staked_amount as int,
        acc0 as int,
        pool.acc_reward_per_share as int,
    );
    if account.staked_amount == 0 {
        assert(debt_of(0, pool.acc_reward_per_share as int) == 0);
        assert(debt_of(0, acc0 as int) == 0);
    }
}

/// Bringing the pool up to the same time twice credits the period once.
pub proof fn lemma_accrual_idempotent(pool: StakingPool, now: i64)
    ensures
        accrued(accrued(pool, now), now) == accrued(pool, now),
{
}

/// Rewards are never paid twice: right after a claim at `now`, in the
/// state that `claim_rewards` leaves, nothing more is due at `now`.
pub proof fn lemma_no_double_claim(pool: StakingPool, account: StakeAccount, now: i64)
    ensures
        ({
            let p = accrued(pool, now);
            let a = StakeAccount {
                pending_rewards: 0,
                reward_debt: debt_of(account.staked_amount as int, p.acc_reward_per_share as int)
                    as u128,
                ..account
            };
            debt_of(account.staked_amount as int, p.acc_reward_per_share as int) <= u128::MAX
                ==> rewards_due(p, a, now) == 0
        }),
{
    lemma_accrual_idempotent(pool, now);
}

} // verus!
