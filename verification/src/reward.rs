//! How reward accrues: every staked token earns the pool's rate in every
//! second, and what has been earned is added to the record before the
//! principal changes or the reward is paid.
use vstd::prelude::*;
use crate::error::StakingError;
use crate::state::UserStakeInfo;

verus! {

/// Reward that `principal` tokens earn in `elapsed` seconds at `rate`.
pub open spec fn reward(rate: u64, principal: u64, elapsed: int) -> int {
    elapsed * rate * principal
}

/// The reward owed on `stake` at time `now`: what was pending, and what the
/// principal has earned since. Refused where time has run backwards or where
/// the sum does not fit the record.
pub open spec fn accrued(stake: UserStakeInfo, rate: u64, now: i64) -> Result<u64, StakingError> {
    let elapsed = now - stake.last_accrual_time;
    let owed = stake.pending_rewards + reward(rate, stake.amount, elapsed);
    if elapsed < 0 || owed > u64::MAX {
        Err(StakingError::ArithmeticOverflow)
    } else {
        Ok(owed as u64)
    }
}

/// A product of three factors is no smaller than that of the first two,
/// unless the third is zero.
proof fn lemma_third_factor(a: int, b: int, c: int)
    by (nonlinear_arith)
    requires
        0 <= a,
        0 <= b,
        1 <= c,
    ensures
        a * b <= a * b * c,
{
}

/// Computes the reward owed on `stake` at time `now`, checking every step
/// for overflow.
pub fn accrue(stake: &UserStakeInfo, rate: u64, now: i64) -> (owed: Result<u64, StakingError>)
    ensures
        owed == accrued(*stake, rate, now),
{
    if now < stake.last_accrual_time {
        return Err(StakingError::ArithmeticOverflow);
    }
    let elapsed: u64 = (now as i128 - stake.last_accrual_time as i128) as u64;
    if stake.amount == 0 {
        return Ok(stake.pending_rewards);
    }
    proof {
        lemma_third_factor(elapsed as int, rate as int, stake.amount as int);
    }
    let earned: u64 = match elapsed.checked_mul(rate) {
        Some(per_token) => match per_token.checked_mul(stake.amount) {
            Some(earned) => earned,
            None => {
                return Err(StakingError::ArithmeticOverflow);
            },
        },
        None => {
            return Err(StakingError::ArithmeticOverflow);
        },
    };
    match stake.pending_rewards.checked_add(earned) {
        Some(owed) => Ok(owed),
        None => Err(StakingError::ArithmeticOverflow),
    }
}

/// Reward earned over two stretches of time is the reward earned over both
/// together, as long as rate and principal stay the same.
pub proof fn lemma_reward_adds_up(rate: u64, principal: u64, first: int, second: int)
    ensures
        reward(rate, principal, first) + reward(rate, principal, second) == reward(
            rate,
            principal,
            first + second,
        ),
{
    assert(first * rate * principal + second * rate * principal == (first + second) * rate
        * principal) by (nonlinear_arith);
}

} // verus!
