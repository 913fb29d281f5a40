//! The accounts that each operation works on, read into plain values, and
//! the rule of each operation: for every such set of accounts, whether the
//! operation is carried out, what it leaves in the records, and which
//! transfer it orders.
//!
//! The addresses that the protocol derives come in as arguments here; the
//! functions of `staking` derive them and hand them over.
use vstd::prelude::*;
use crate::address::{address_view, derivation_view};
use crate::codec::{same_address, Address};
use crate::error::StakingError;
use crate::invocation::{Invocation, InvocationView};
use crate::reward::{accrue, accrued};
use crate::state::{StakingPool, UserStakeAccount, UserStakeInfo};
use crate::token::{
    transfer_as_owner, transfer_as_pool, transfer_by_owner, transfer_by_pool, TokenAccount,
    TOKEN_PROGRAM_ID,
};

verus! {

/// What an operation is called with: the program's own address, and the
/// accounts that the operation works on.
#[derive(Clone, Copy, Debug, PartialEq, Eq)]
pub struct Context<T> {
    /// The address of the program that runs the operation.
    pub program_id: Address,
    /// The accounts of the call.
    pub accounts: T,
}

/// The accounts of a call that sets a pool up.
#[derive(Clone, Copy, Debug, PartialEq, Eq)]
pub struct InitializePool {
    /// Where the pool record is to stand.
    pub staking_pool_key: Address,
    /// The record found there; `None` while the storage is empty.
    pub staking_pool: Option<StakingPool>,
    /// The administrator, who signs the call.
    pub authority: Address,
    /// The token account that is to hold the deposits.
    pub vault: TokenAccount,
    /// The type of token that the pool is for.
    pub mint: Address,
}

/// The accounts of a deposit.
#[derive(Clone, Copy, Debug, PartialEq, Eq)]
pub struct Stake {
    /// The depositor, who signs the call.
    pub user: Address,
    /// Where the tokens come from.
    pub user_token_account: TokenAccount,
    /// Where the tokens go.
    pub vault: TokenAccount,
    /// Where the pool record stands.
    pub staking_pool_key: Address,
    /// The pool record.
    pub staking_pool: StakingPool,
    /// Where the user's stake record stands.
    pub user_stake_key: Address,
    /// The user's stake record; `None` before the first deposit.
    pub user_stake_account: Option<UserStakeAccount>,
    /// The program that is to move the tokens.
    pub token_program: Address,
}

/// The accounts of a withdrawal of principal.
#[derive(Clone, Copy, Debug, PartialEq, Eq)]
pub struct Unstake {
    /// The user, who signs the call.
    pub user: Address,
    /// Where the tokens go.
    pub user_token_account: TokenAccount,
    /// Where the tokens come from.
    pub vault: TokenAccount,
    /// Where the pool record stands.
    pub staking_pool_key: Address,
    /// The pool record.
    pub staking_pool: StakingPool,
    /// Where the user's stake record stands.
    pub user_stake_key: Address,
    /// The user's stake record.
    pub user_stake_account: UserStakeAccount,
    /// The program that is to move the tokens.
    pub token_program: Address,
}

/// The accounts of a claim of reward.
#[derive(Clone, Copy, Debug, PartialEq, Eq)]
pub struct ClaimRewards {
    /// The user, who signs the call.
    pub user: Address,
    /// Where the reward goes.
    pub user_token_account: TokenAccount,
    /// Where the reward comes from: the pool's vault, as far as it holds
    /// more than the staked principal.
    pub vault: TokenAccount,
    /// Where the pool record stands.
    pub staking_pool_key: Address,
    /// The pool record.
    pub staking_pool: StakingPool,
    /// Where the user's stake record stands.
    pub user_stake_key: Address,
    /// The user's stake record.
    pub user_stake_account: UserStakeAccount,
    /// The program that is to move the tokens.
    pub token_program: Address,
}

/// What is wrong with the accounts that every movement of tokens involves, if
/// anything: the pool record must stand at the address derived for it, the
/// vault must be the one the pool names and be under the pool's authority,
/// and the user's token account must be the user's and hold the vault's type
/// of token.
pub open spec fn custody_fault(
    pool_key: Address,
    pool: StakingPool,
    vault: TokenAccount,
    user: Address,
    user_token_account: TokenAccount,
    pool_address: Option<Seq<u8>>,
) -> Option<StakingError> {
    if pool_address != Some(pool_key@) {
        Some(StakingError::AddressMismatch)
    } else if vault.key != pool.vault {
        Some(StakingError::AddressMismatch)
    } else if vault.owner != pool_key {
        Some(StakingError::OwnerMismatch)
    } else if user_token_account.owner != user {
        Some(StakingError::OwnerMismatch)
    } else if user_token_account.mint != vault.mint {
        Some(StakingError::MintMismatch)
    } else {
        None
    }
}

/// What is wrong with a stake record's account, if anything: it must stand
/// at the address derived for this user in this pool, and its record, once
/// there is one, must name the user.
pub open spec fn record_fault(
    stake_key: Address,
    owner: Address,
    user: Address,
    stake_address: Option<(Seq<u8>, u8)>,
) -> Option<StakingError> {
    if !(stake_address matches Some((address, _)) && address == stake_key@) {
        Some(StakingError::AddressMismatch)
    } else if owner != user {
        Some(StakingError::OwnerMismatch)
    } else {
        None
    }
}

/// The stake record of a user who has not staked before `now`.
pub open spec fn fresh_stake(user: Address, now: i64) -> UserStakeInfo {
    UserStakeInfo { owner: user, amount: 0, pending_rewards: 0, last_accrual_time: now }
}

/// Checks the accounts that every movement of tokens involves.
fn check_custody(
    pool_key: &Address,
    pool: &StakingPool,
    vault: &TokenAccount,
    user: &Address,
    user_token_account: &TokenAccount,
    pool_address: &Option<Address>,
) -> (fault: Option<StakingError>)
    ensures
        fault == custody_fault(
            *pool_key,
            *pool,
            *vault,
            *user,
            *user_token_account,
            address_view(*pool_address),
        ),
{
    let at_derived = match pool_address {
        Some(address) => same_address(address, pool_key),
        None => false,
    };
    if !at_derived {
        Some(StakingError::AddressMismatch)
    } else if !same_address(&vault.key, &pool.vault) {
        Some(StakingError::AddressMismatch)
    } else if !same_address(&vault.owner, pool_key) {
        Some(StakingError::OwnerMismatch)
    } else if !same_address(&user_token_account.owner, user) {
        Some(StakingError::OwnerMismatch)
    } else if !same_address(&user_token_account.mint, &vault.mint) {
        Some(StakingError::MintMismatch)
    } else {
        None
    }
}

/// Checks a stake record's account.
fn check_record(
    stake_key: &Address,
    owner: &Address,
    user: &Address,
    stake_address: &Option<(Address, u8)>,
) -> (fault: Option<StakingError>)
    ensures
        fault == record_fault(*stake_key, *owner, *user, derivation_view(*stake_address)),
{
    let at_derived = match stake_address {
        Some((address, _)) => same_address(address, stake_key),
        None => false,
    };
    if !at_derived {
        Some(StakingError::AddressMismatch)
    } else if !same_address(owner, user) {
        Some(StakingError::OwnerMismatch)
    } else {
        None
    }
}

impl InitializePool {
    /// The accounts after the call, or why it is refused. `derived` is the
    /// address that the protocol derives for the pool of `self.mint`, with its
    /// bump seed.
    pub open spec fn outcome(self, reward_rate: u64, derived: Option<(Seq<u8>, u8)>) -> Result<
        InitializePool,
        StakingError,
    > {
        if !(derived matches Some((address, _)) && address == self.staking_pool_key@) {
            Err(StakingError::AddressMismatch)
        } else if self.staking_pool.is_some() {
            Err(StakingError::AlreadyInitialized)
        } else if self.vault.owner != self.staking_pool_key {
            Err(StakingError::OwnerMismatch)
        } else if self.vault.mint != self.mint {
            Err(StakingError::MintMismatch)
        } else {
            Ok(
                InitializePool {
                    staking_pool: Some(
                        StakingPool {
                            administrator: self.authority,
                            reward_rate,
                            vault: self.vault.key,
                            total_staked: 0,
                            authority_bump: derived.unwrap().1,
                        },
                    ),
                    ..self
                },
            )
        }
    }

    /// Sets the pool up: writes its record, with nothing staked. Refused
    /// where the record exists already, where it would not stand at the
    /// derived address, and where the vault is not under the authority of
    /// that address or holds another type of token. A refusal changes
    /// nothing.
    pub fn apply(&mut self, reward_rate: u64, derived: Option<(Address, u8)>) -> (done: Result<
        (),
        StakingError,
    >)
        ensures
            match old(self).outcome(reward_rate, derivation_view(derived)) {
                Ok(after) => done.is_ok() && *final(self) == after,
                Err(e) => done == Err::<(), StakingError>(e) && *final(self) == *old(self),
            },
    {
        let bump: u8 = match derived {
            Some((address, bump)) => {
                if !same_address(&address, &self.staking_pool_key) {
                    return Err(StakingError::AddressMismatch);
                }
                bump
            },
            None => {
                return Err(StakingError::AddressMismatch);
            },
        };
        if self.staking_pool.is_some() {
            return Err(StakingError::AlreadyInitialized);
        }
        if !same_address(&self.vault.owner, &self.staking_pool_key) {
            return Err(StakingError::OwnerMismatch);
        }
        if !same_address(&self.vault.mint, &self.mint) {
            return Err(StakingError::MintMismatch);
        }
        self.staking_pool = Some(
            StakingPool {
                administrator: self.authority,
                reward_rate,
                vault: self.vault.key,
                total_staked: 0,
                authority_bump: bump,
            },
        );
        Ok(())
    }
}

impl Stake {
    /// The record that the deposit builds on: the user's own, or a fresh one.
    pub open spec fn record(self, now: i64) -> UserStakeInfo {
        match self.user_stake_account {
            Some(record) => record,
            None => fresh_stake(self.user, now),
        }
    }

    /// The accounts after a deposit of `amount` at time `now` and the
    /// transfer it orders, or why it is refused. `pool_address` is the
    /// address that the pool's seeds and stored bump seed derive,
    /// `stake_address` the one derived for this user's record in this pool.
    pub open spec fn outcome(
        self,
        amount: u64,
        now: i64,
        pool_address: Option<Seq<u8>>,
        stake_address: Option<(Seq<u8>, u8)>,
    ) -> Result<(Stake, InvocationView), StakingError> {
        let record = self.record(now);
        let custody = custody_fault(
            self.staking_pool_key,
            self.staking_pool,
            self.vault,
            self.user,
            self.user_token_account,
            pool_address,
        );
        let held = record_fault(self.user_stake_key, record.owner, self.user, stake_address);
        let owed = accrued(record, self.staking_pool.reward_rate, now);
        if amount == 0 {
            Err(StakingError::InvalidAmount)
        } else if self.token_program != TOKEN_PROGRAM_ID {
            Err(StakingError::IncorrectProgram)
        } else if custody.is_some() {
            Err(custody.unwrap())
        } else if held.is_some() {
            Err(held.unwrap())
        } else if self.user_token_account.amount < amount {
            Err(StakingError::InsufficientFunds)
        } else if owed.is_err() {
            Err(StakingError::ArithmeticOverflow)
        } else if record.amount + amount > u64::MAX || self.staking_pool.total_staked + amount
            > u64::MAX {
            Err(StakingError::ArithmeticOverflow)
        } else {
            Ok(
                (
                    Stake {
                        staking_pool: StakingPool {
                            total_staked: (self.staking_pool.total_staked + amount) as u64,
                            ..self.staking_pool
                        },
                        user_stake_account: Some(
                            UserStakeInfo {
                                owner: self.user,
                                amount: (record.amount + amount) as u64,
                                pending_rewards: owed.unwrap(),
                                last_accrual_time: now,
                            },
                        ),
                        ..self
                    },
                    transfer_by_owner(
                        self.user_token_account.key,
                        self.vault.key,
                        self.user,
                        amount,
                    ),
                ),
            )
        }
    }

    /// Deposits `amount` tokens at time `now`: brings the user's reward up
    /// to date, adds the amount to the user's principal and to the pool's
    /// total, and orders the transfer from the user's token account to the
    /// vault in the user's name. The first deposit creates the record. A
    /// refusal changes nothing.
    pub fn apply(
        &mut self,
        amount: u64,
        now: i64,
        pool_address: Option<Address>,
        stake_address: Option<(Address, u8)>,
    ) -> (order: Result<Invocation, StakingError>)
        ensures
            match old(self).outcome(
                amount,
                now,
                address_view(pool_address),
                derivation_view(stake_address),
            ) {
                Ok((after, transfer)) => order.is_ok() && order.unwrap()@ == transfer && *final(self) == after,
                Err(e) => order == Err::<Invocation, StakingError>(e) && *final(self) == *old(self),
            },
    {
        if amount == 0 {
            return Err(StakingError::InvalidAmount);
        }
        if !same_address(&self.token_program, &TOKEN_PROGRAM_ID) {
            return Err(StakingError::IncorrectProgram);
        }
        if let Some(fault) = check_custody(
            &self.staking_pool_key,
            &self.staking_pool,
            &self.vault,
            &self.user,
            &self.user_token_account,
            &pool_address,
        ) {
            return Err(fault);
        }
        let record = match self.user_stake_account {
            Some(record) => record,
            None => UserStakeInfo {
                owner: self.user,
                amount: 0,
                pending_rewards: 0,
                last_accrual_time: now,
            },
        };
        if let Some(fault) = check_record(
            &self.user_stake_key,
            &record.owner,
            &self.user,
            &stake_address,
        ) {
            return Err(fault);
        }
        if self.user_token_account.amount < amount {
            return Err(StakingError::InsufficientFunds);
        }
        let pending_rewards: u64 = match accrue(&record, self.staking_pool.reward_rate, now) {
            Ok(owed) => owed,
            Err(_) => {
                return Err(StakingError::ArithmeticOverflow);
            },
        };
        let staked: u64 = match record.amount.checked_add(amount) {
            Some(staked) => staked,
            None => {
                return Err(StakingError::ArithmeticOverflow);
            },
        };
        let total_staked: u64 = match self.staking_pool.total_staked.checked_add(amount) {
            Some(total) => total,
            None => {
                return Err(StakingError::ArithmeticOverflow);
            },
        };
        let order = transfer_as_owner(
            &self.token_program,
            &self.user_token_account.key,
            &self.vault.key,
            &self.user,
            amount,
        )?;
        self.user_stake_account = Some(
            UserStakeInfo {
                owner: self.user,
                amount: staked,
                pending_rewards,
                last_accrual_time: now,
            },
        );
        self.staking_pool.total_staked = total_staked;
        Ok(order)
    }
}

impl Unstake {
    /// The accounts after a withdrawal of `amount` at time `now` and the
    /// transfer it orders, or why it is refused. `pool_address` is the
    /// address that the pool's seeds and stored bump seed derive,
    /// `stake_address` the one derived for this user's record in this pool.
    pub open spec fn outcome(
        self,
        amount: u64,
        now: i64,
        pool_address: Option<Seq<u8>>,
        stake_address: Option<(Seq<u8>, u8)>,
    ) -> Result<(Unstake, InvocationView), StakingError> {
        let record = self.user_stake_account;
        let custody = custody_fault(
            self.staking_pool_key,
            self.staking_pool,
            self.vault,
            self.user,
            self.user_token_account,
            pool_address,
        );
        let held = record_fault(self.user_stake_key, record.owner, self.user, stake_address);
        let owed = accrued(record, self.staking_pool.reward_rate, now);
        if amount == 0 {
            Err(StakingError::InvalidAmount)
        } else if self.token_program != TOKEN_PROGRAM_ID {
            Err(StakingError::IncorrectProgram)
        } else if custody.is_some() {
            Err(custody.unwrap())
        } else if held.is_some() {
            Err(held.unwrap())
        } else if amount > record.amount {
            Err(StakingError::InsufficientPrincipal)
        } else if amount > self.staking_pool.total_staked {
            Err(StakingError::ArithmeticOverflow)
        } else if self.vault.amount < amount {
            Err(StakingError::InsufficientFunds)
        } else if owed.is_err() {
            Err(StakingError::ArithmeticOverflow)
        } else {
            Ok(
                (
                    Unstake {
                        staking_pool: StakingPool {
                            total_staked: (self.staking_pool.total_staked - amount) as u64,
                            ..self.staking_pool
                        },
                        user_stake_account: UserStakeInfo {
                            owner: record.owner,
                            amount: (record.amount - amount) as u64,
                            pending_rewards: owed.unwrap(),
                            last_accrual_time: now,
                        },
                        ..self
                    },
                    transfer_by_pool(
                        self.vault.key,
                        self.user_token_account.key,
                        self.staking_pool_key,
                        self.vault.mint,
                        self.staking_pool.authority_bump,
                        amount,
                    ),
                ),
            )
        }
    }

    /// Withdraws `amount` tokens of principal at time `now`: brings the
    /// user's reward up to date on the principal as it stood, takes the
    /// amount off the user's principal and off the pool's total, and orders
    /// the transfer from the vault to the user's token account in the name of
    /// the pool's address. The record stays, also when nothing is left
    /// staked. A refusal changes nothing.
    pub fn apply(
        &mut self,
        amount: u64,
        now: i64,
        pool_address: Option<Address>,
        stake_address: Option<(Address, u8)>,
    ) -> (order: Result<Invocation, StakingError>)
        ensures
            match old(self).outcome(
                amount,
                now,
                address_view(pool_address),
                derivation_view(stake_address),
            ) {
                Ok((after, transfer)) => order.is_ok() && order.unwrap()@ == transfer && *final(self) == after,
                Err(e) => order == Err::<Invocation, StakingError>(e) && *final(self) == *old(self),
            },
    {
        if amount == 0 {
            return Err(StakingError::InvalidAmount);
        }
        if !same_address(&self.token_program, &TOKEN_PROGRAM_ID) {
            return Err(StakingError::IncorrectProgram);
        }
        if let Some(fault) = check_custody(
            &self.staking_pool_key,
            &self.staking_pool,
            &self.vault,
            &self.user,
            &self.user_token_account,
            &pool_address,
        ) {
            return Err(fault);
        }
        let record = self.user_stake_account;
        if let Some(fault) = check_record(
            &self.user_stake_key,
            &record.owner,
            &self.user,
            &stake_address,
        ) {
            return Err(fault);
        }
        if amount > record.amount {
            return Err(StakingError::InsufficientPrincipal);
        }
        if amount > self.staking_pool.total_staked {
            return Err(StakingError::ArithmeticOverflow);
        }
        if self.vault.amount < amount {
            return Err(StakingError::InsufficientFunds);
        }
        let pending_rewards: u64 = match accrue(&record, self.staking_pool.reward_rate, now) {
            Ok(owed) => owed,
            Err(_) => {
                return Err(StakingError::ArithmeticOverflow);
            },
        };
        let order = transfer_as_pool(
            &self.token_program,
            &self.vault.key,
            &self.user_token_account.key,
            &self.staking_pool_key,
            &self.vault.mint,
            self.staking_pool.authority_bump,
            amount,
        )?;
        self.user_stake_account = UserStakeInfo {
            owner: record.owner,
            amount: record.amount - amount,
            pending_rewards,
            last_accrual_time: now,
        };
        self.staking_pool.total_staked = self.staking_pool.total_staked - amount;
        Ok(order)
    }
}

impl ClaimRewards {
    /// The accounts after a claim at time `now` and the transfer it orders,
    /// or why it is refused. `pool_address` is the address that the pool's
    /// seeds and stored bump seed derive, `stake_address` the one derived for
    /// this user's record in this pool.
    pub open spec fn outcome(
        self,
        now: i64,
        pool_address: Option<Seq<u8>>,
        stake_address: Option<(Seq<u8>, u8)>,
    ) -> Result<(ClaimRewards, InvocationView), StakingError> {
        let record = self.user_stake_account;
        let custody = custody_fault(
            self.staking_pool_key,
            self.staking_pool,
            self.vault,
            self.user,
            self.user_token_account,
            pool_address,
        );
        let held = record_fault(self.user_stake_key, record.owner, self.user, stake_address);
        let owed = accrued(record, self.staking_pool.reward_rate, now);
        if self.token_program != TOKEN_PROGRAM_ID {
            Err(StakingError::IncorrectProgram)
        } else if custody.is_some() {
            Err(custody.unwrap())
        } else if held.is_some() {
            Err(held.unwrap())
        } else if owed.is_err() {
            Err(StakingError::ArithmeticOverflow)
        } else if owed.unwrap() == 0 {
            Err(StakingError::NothingToClaim)
        } else if self.vault.amount < self.staking_pool.total_staked + owed.unwrap() {
            Err(StakingError::InsufficientRewardReserve)
        } else {
            Ok(
                (
                    ClaimRewards {
                        user_stake_account: UserStakeInfo {
                            pending_rewards: 0,
                            last_accrual_time: now,
                            ..record
                        },
                        ..self
                    },
                    transfer_by_pool(
                        self.vault.key,
                        self.user_token_account.key,
                        self.staking_pool_key,
                        self.vault.mint,
                        self.staking_pool.authority_bump,
                        owed.unwrap(),
                    ),
                ),
            )
        }
    }

    /// Pays out the reward owed at time `now`: what was pending and what the
    /// principal has earned since. Orders its transfer from the vault to the
    /// user's token account in the name of the pool's address, and leaves
    /// nothing pending. Principal is never paid out as reward: the claim is
    /// refused unless the vault holds the reward on top of all that is
    /// staked. A refusal changes nothing.
    pub fn apply(
        &mut self,
        now: i64,
        pool_address: Option<Address>,
        stake_address: Option<(Address, u8)>,
    ) -> (order: Result<Invocation, StakingError>)
        ensures
            match old(self).outcome(now, address_view(pool_address), derivation_view(stake_address)) {
                Ok((after, transfer)) => order.is_ok() && order.unwrap()@ == transfer && *final(self) == after,
                Err(e) => order == Err::<Invocation, StakingError>(e) && *final(self) == *old(self),
            },
    {
        if !same_address(&self.token_program, &TOKEN_PROGRAM_ID) {
            return Err(StakingError::IncorrectProgram);
        }
        if let Some(fault) = check_custody(
            &self.staking_pool_key,
            &self.staking_pool,
            &self.vault,
            &self.user,
            &self.user_token_account,
            &pool_address,
        ) {
            return Err(fault);
        }
        let record = self.user_stake_account;
        if let Some(fault) = check_record(
            &self.user_stake_key,
            &record.owner,
            &self.user,
            &stake_address,
        ) {
            return Err(fault);
        }
        let owed: u64 = match accrue(&record, self.staking_pool.reward_rate, now) {
            Ok(owed) => owed,
            Err(_) => {
                return Err(StakingError::ArithmeticOverflow);
            },
        };
        if owed == 0 {
            return Err(StakingError::NothingToClaim);
        }
        let covered = match self.staking_pool.total_staked.checked_add(owed) {
            Some(needed) => self.vault.amount >= needed,
            None => false,
        };
        if !covered {
            return Err(StakingError::InsufficientRewardReserve);
        }
        let order = transfer_as_pool(
            &self.token_program,
            &self.vault.key,
            &self.user_token_account.key,
            &self.staking_pool_key,
            &self.vault.mint,
            self.staking_pool.authority_bump,
            owed,
        )?;
        self.user_stake_account = UserStakeInfo {
            owner: record.owner,
            amount: record.amount,
            pending_rewards: 0,
            last_accrual_time: now,
        };
        Ok(order)
    }
}

} // verus!
