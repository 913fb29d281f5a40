//! The core of an on-ledger staking protocol: the layout of its records, the
//! derivation of the addresses it controls, and the rules by which stakes are
//! made, withdrawn and rewarded.
//!
//! Users deposit tokens into a vault that only the protocol can move tokens
//! out of, earn a reward for every token and second, and take principal and
//! reward out again. The library decides and computes; it performs nothing.
//! Its caller hands it the accounts, the time and the deposits that the
//! ledger asks for, and gets back the calls to make and the bytes to store.
use vstd::prelude::*;

pub mod address;
pub mod codec;
pub mod context;
pub mod error;
pub mod history;
pub mod instruction;
pub mod invocation;
pub mod processor;
pub mod reward;
pub mod staking;
pub mod state;
pub mod system;
pub mod token;

use crate::codec::Address;
use crate::error::StakingError;
use crate::processor::{gives, process_effects, AccountInfo, Effects, Runtime};

verus! {

/// The program's entry point: reads the request from `instruction_data` and
/// carries it out on `accounts`.
pub fn process_instruction(
    program_id: &Address,
    accounts: &[AccountInfo],
    instruction_data: &[u8],
    runtime: &Runtime,
) -> (result: Result<Effects, StakingError>)
    ensures
        gives(result, process_effects(*program_id, accounts@, instruction_data@, *runtime)),
{
    processor::process(program_id, accounts, instruction_data, runtime)
}

} // verus!
