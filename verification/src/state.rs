//! The two records that the protocol keeps on the ledger, and their layout
//! in bytes: fields in declaration order, integers little-endian, no padding.
//!
//! A pool record is written once, when the pool is set up, and stays for
//! good. A stake record is written by a user's first deposit and stays as
//! well: it is kept, with nothing staked, when the user has withdrawn
//! everything, and a later deposit builds on it.
use vstd::prelude::*;
use crate::codec::{
    address_at, i64_le, le_i64, le_u64, lemma_address_at, lemma_address_round_trip,
    lemma_i64_bytes_round_trip, lemma_i64_round_trip, lemma_u64_bytes_round_trip,
    lemma_u64_round_trip, read_address, read_i64, read_u64, u64_le, write_address, write_i64,
    write_u64, Address,
};

verus! {

/// Number of bytes that a pool record takes on the ledger.
pub const POOL_LEN: usize = 81;

/// Number of bytes that a user's stake record takes on the ledger.
pub const USER_STAKE_LEN: usize = 56;

/// The record of one pool: there is one for each type of token staked.
#[derive(Clone, Copy, Debug, PartialEq, Eq)]
pub struct StakingPool {
    /// Who set the pool up.
    pub administrator: Address,
    /// Reward units earned by one staked token in one second. Never changes.
    pub reward_rate: u64,
    /// The token account that holds what users have deposited.
    pub vault: Address,
    /// Sum of the principal of all users of this pool.
    pub total_staked: u64,
    /// The bump seed that completes the seeds of the pool's own address.
    pub authority_bump: u8,
}

/// The record of one user's stake in one pool.
#[derive(Clone, Copy, Debug, PartialEq, Eq)]
pub struct UserStakeInfo {
    /// The user whose stake this is.
    pub owner: Address,
    /// Principal currently staked.
    pub amount: u64,
    /// Reward earned up to `last_accrual_time` and not yet paid out.
    pub pending_rewards: u64,
    /// When the reward was last brought up to date.
    pub last_accrual_time: i64,
}

/// A user's stake record as it is kept in the user's stake account.
pub type UserStakeAccount = UserStakeInfo;

impl StakingPool {
    /// The bytes of this record on the ledger.
    pub open spec fn encoding(self) -> Seq<u8> {
        self.administrator@ + u64_le(self.reward_rate) + self.vault@ + u64_le(self.total_staked)
            + seq![self.authority_bump]
    }

    /// The record that `bytes` hold, if they are exactly the bytes of one.
    pub open spec fn decoding(bytes: Seq<u8>) -> Option<StakingPool> {
        if bytes.len() == POOL_LEN {
            Some(
                StakingPool {
                    administrator: address_at(bytes, 0),
                    reward_rate: le_u64(bytes.subrange(32, 40)),
                    vault: address_at(bytes, 40),
                    total_staked: le_u64(bytes.subrange(72, 80)),
                    authority_bump: bytes[80],
                },
            )
        } else {
            None
        }
    }

    /// Writes this record out as it stands on the ledger.
    pub fn encode(&self) -> (bytes: Vec<u8>)
        ensures
            bytes@ == self.encoding(),
            bytes@.len() == POOL_LEN,
    {
        let mut bytes: Vec<u8> = Vec::new();
        write_address(&mut bytes, &self.administrator);
        write_u64(&mut bytes, self.reward_rate);
        write_address(&mut bytes, &self.vault);
        write_u64(&mut bytes, self.total_staked);
        bytes.push(self.authority_bump);
        bytes
    }

    /// Reads a record from the bytes of an account. Gives `None` when the
    /// bytes are too few or too many.
    pub fn decode(bytes: &[u8]) -> (pool: Option<StakingPool>)
        ensures
            pool == StakingPool::decoding(bytes@),
    {
        if bytes.len() != POOL_LEN {
            return None;
        }
        Some(
            StakingPool {
                administrator: read_address(bytes, 0),
                reward_rate: read_u64(bytes, 32),
                vault: read_address(bytes, 40),
                total_staked: read_u64(bytes, 72),
                authority_bump: bytes[80],
            },
        )
    }
}

impl UserStakeInfo {
    /// The bytes of this record on the ledger.
    pub open spec fn encoding(self) -> Seq<u8> {
        self.owner@ + u64_le(self.amount) + u64_le(self.pending_rewards) + i64_le(
            self.last_accrual_time,
        )
    }

    /// The record that `bytes` hold, if they are exactly the bytes of one.
    pub open spec fn decoding(bytes: Seq<u8>) -> Option<UserStakeInfo> {
        if bytes.len() == USER_STAKE_LEN {
            Some(
                UserStakeInfo {
                    owner: address_at(bytes, 0),
                    amount: le_u64(bytes.subrange(32, 40)),
                    pending_rewards: le_u64(bytes.subrange(40, 48)),
                    last_accrual_time: le_i64(bytes.subrange(48, 56)),
                },
            )
        } else {
            None
        }
    }

    /// Writes this record out as it stands on the ledger.
    pub fn encode(&self) -> (bytes: Vec<u8>)
        ensures
            bytes@ == self.encoding(),
            bytes@.len() == USER_STAKE_LEN,
    {
        let mut bytes: Vec<u8> = Vec::new();
        write_address(&mut bytes, &self.owner);
        write_u64(&mut bytes, self.amount);
        write_u64(&mut bytes, self.pending_rewards);
        write_i64(&mut bytes, self.last_accrual_time);
        bytes
    }

    /// Reads a record from the bytes of an account. Gives `None` when the
    /// bytes are too few or too many.
    pub fn decode(bytes: &[u8]) -> (stake: Option<UserStakeInfo>)
        ensures
            stake == UserStakeInfo::decoding(bytes@),
    {
        if bytes.len() != USER_STAKE_LEN {
            return None;
        }
        Some(
            UserStakeInfo {
                owner: read_address(bytes, 0),
                amount: read_u64(bytes, 32),
                pending_rewards: read_u64(bytes, 40),
                last_accrual_time: read_i64(bytes, 48),
            },
        )
    }
}

/// Every pool record is read back from its bytes as it was written.
pub proof fn lemma_pool_round_trip(pool: StakingPool)
    ensures
        pool.encoding().len() == POOL_LEN,
        StakingPool::decoding(pool.encoding()) == Some(pool),
{
    lemma_u64_round_trip(pool.reward_rate);
    lemma_u64_round_trip(pool.total_staked);
    lemma_address_round_trip(
        Seq::empty(),
        pool.administrator,
        u64_le(pool.reward_rate) + pool.vault@ + u64_le(pool.total_staked) + seq![
            pool.authority_bump,
        ],
    );
    lemma_address_round_trip(
        pool.administrator@ + u64_le(pool.reward_rate),
        pool.vault,
        u64_le(pool.total_staked) + seq![pool.authority_bump],
    );
}

/// Every byte of a pool record counts: the bytes that a record was read from
/// are the bytes that it is written as.
pub proof fn lemma_pool_bytes_round_trip(bytes: Seq<u8>)
    requires
        bytes.len() == POOL_LEN,
    ensures
        StakingPool::decoding(bytes).unwrap().encoding() == bytes,
{
    lemma_address_at(bytes, 0);
    lemma_address_at(bytes, 40);
    lemma_u64_bytes_round_trip(bytes.subrange(32, 40));
    lemma_u64_bytes_round_trip(bytes.subrange(72, 80));
}

/// Every stake record is read back from its bytes as it was written.
pub proof fn lemma_user_stake_round_trip(stake: UserStakeInfo)
    ensures
        stake.encoding().len() == USER_STAKE_LEN,
        UserStakeInfo::decoding(stake.encoding()) == Some(stake),
{
    lemma_u64_round_trip(stake.amount);
    lemma_u64_round_trip(stake.pending_rewards);
    lemma_i64_round_trip(stake.last_accrual_time);
    lemma_address_round_trip(
        Seq::empty(),
        stake.owner,
        u64_le(stake.amount) + u64_le(stake.pending_rewards) + i64_le(stake.last_accrual_time),
    );
}

/// Every byte of a stake record counts: the bytes that a record was read
/// from are the bytes that it is written as.
pub proof fn lemma_user_stake_bytes_round_trip(bytes: Seq<u8>)
    requires
        bytes.len() == USER_STAKE_LEN,
    ensures
        UserStakeInfo::decoding(bytes).unwrap().encoding() == bytes,
{
    lemma_address_at(bytes, 0);
    lemma_u64_bytes_round_trip(bytes.subrange(32, 40));
    lemma_u64_bytes_round_trip(bytes.subrange(40, 48));
    lemma_i64_bytes_round_trip(bytes.subrange(48, 56));
}

} // verus!
