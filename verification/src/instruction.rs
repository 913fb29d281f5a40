//! The four operations of the protocol as they arrive on the wire: one byte
//! that names the operation, then its argument as eight little-endian bytes.
use vstd::prelude::*;
use crate::codec::{le_u64, lemma_u64_round_trip, read_u64, u64_le, write_u64};
use crate::error::StakingError;

verus! {

/// One request to the protocol.
#[derive(Clone, Copy, Debug, PartialEq, Eq, Structural)]
pub enum StakingInstruction {
    /// Set up the pool of one token type, paying `reward_rate` reward units
    /// per staked token and second.
    InitializePool { reward_rate: u64 },
    /// Deposit `amount` tokens into the pool's vault.
    Stake { amount: u64 },
    /// Take `amount` tokens of principal back out of the vault.
    Unstake { amount: u64 },
    /// Have the reward earned so far paid out.
    ClaimRewards,
}

impl StakingInstruction {
    /// The bytes of this request on the wire.
    pub open spec fn encoding(self) -> Seq<u8> {
        match self {
            StakingInstruction::InitializePool { reward_rate } => seq![0u8] + u64_le(reward_rate),
            StakingInstruction::Stake { amount } => seq![1u8] + u64_le(amount),
            StakingInstruction::Unstake { amount } => seq![2u8] + u64_le(amount),
            StakingInstruction::ClaimRewards => seq![3u8],
        }
    }

    /// The request that `bytes` spell, if they spell one and nothing more.
    pub open spec fn decoding(bytes: Seq<u8>) -> Option<StakingInstruction> {
        if bytes.len() == 9 && bytes[0] == 0 {
            Some(StakingInstruction::InitializePool { reward_rate: le_u64(bytes.subrange(1, 9)) })
        } else if bytes.len() == 9 && bytes[0] == 1 {
            Some(StakingInstruction::Stake { amount: le_u64(bytes.subrange(1, 9)) })
        } else if bytes.len() == 9 && bytes[0] == 2 {
            Some(StakingInstruction::Unstake { amount: le_u64(bytes.subrange(1, 9)) })
        } else if bytes.len() == 1 && bytes[0] == 3 {
            Some(StakingInstruction::ClaimRewards)
        } else {
            None
        }
    }

    /// Writes this request out as it travels on the wire.
    pub fn encode(&self) -> (bytes: Vec<u8>)
        ensures
            bytes@ == self.encoding(),
    {
        let mut bytes: Vec<u8> = Vec::new();
        match self {
            StakingInstruction::InitializePool { reward_rate } => {
                bytes.push(0);
                write_u64(&mut bytes, *reward_rate);
            },
            StakingInstruction::Stake { amount } => {
                bytes.push(1);
                write_u64(&mut bytes, *amount);
            },
            StakingInstruction::Unstake { amount } => {
                bytes.push(2);
                write_u64(&mut bytes, *amount);
            },
            StakingInstruction::ClaimRewards => {
                bytes.push(3);
            },
        }
        bytes
    }

    /// Reads a request from instruction bytes. Unknown operations, missing
    /// argument bytes and bytes left over are all refused.
    pub fn decode(bytes: &[u8]) -> (instruction: Result<StakingInstruction, StakingError>)
        ensures
            match StakingInstruction::decoding(bytes@) {
                Some(i) => instruction == Ok::<StakingInstruction, StakingError>(i),
                None => instruction == Err::<StakingInstruction, StakingError>(
                    StakingError::InvalidInstruction,
                ),
            },
    {
        if bytes.len() == 0 {
            return Err(StakingError::InvalidInstruction);
        }
        let tag: u8 = bytes[0];
        if tag == 3 {
            if bytes.len() == 1 {
                Ok(StakingInstruction::ClaimRewards)
            } else {
                Err(StakingError::InvalidInstruction)
            }
        } else if tag <= 2 && bytes.len() == 9 {
            let value: u64 = read_u64(bytes, 1);
            if tag == 0 {
                Ok(StakingInstruction::InitializePool { reward_rate: value })
            } else if tag == 1 {
                Ok(StakingInstruction::Stake { amount: value })
            } else {
                Ok(StakingInstruction::Unstake { amount: value })
            }
        } else {
            Err(StakingError::InvalidInstruction)
        }
    }
}

/// Every request is read back from its bytes as it was written.
pub proof fn lemma_instruction_round_trip(instruction: StakingInstruction)
    ensures
        StakingInstruction::decoding(instruction.encoding()) == Some(instruction),
{
    match instruction {
        StakingInstruction::InitializePool { reward_rate } => {
            lemma_u64_round_trip(reward_rate);
        },
        StakingInstruction::Stake { amount } => {
            lemma_u64_round_trip(amount);
        },
        StakingInstruction::Unstake { amount } => {
            lemma_u64_round_trip(amount);
        },
        StakingInstruction::ClaimRewards => {},
    }
}

} // verus!
