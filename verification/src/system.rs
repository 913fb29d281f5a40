//! The protocol's side of the system program: the creation of the accounts
//! in which its records stand.
use vstd::prelude::*;
use solana_program::pubkey::Pubkey;
use crate::address::seeds_view;
use crate::codec::{u64_le, Address};
use crate::invocation::{AccountMeta, Instruction, InstructionView, Invocation, InvocationView};

verus! {

/// The address of the system program.
pub const SYSTEM_PROGRAM_ID: Address = [
    0, 0, 0, 0, 0, 0, 0, 0, 0, 0, 0, 0, 0, 0, 0, 0, 0, 0, 0, 0, 0, 0, 0, 0, 0, 0, 0, 0, 0, 0, 0, 0,
];

/// The data of the system program's instruction that creates an account
/// holding `lamports`, with room for `space` bytes, owned by `owner`: four
/// bytes that number the instruction, which is the first, then the two
/// amounts in eight little-endian bytes each, then the owner's address.
pub open spec fn create_account_data(lamports: u64, space: u64, owner: Address) -> Seq<u8> {
    seq![0u8, 0u8, 0u8, 0u8] + u64_le(lamports) + u64_le(space) + owner@
}

/// The instruction by which `payer` creates `new_account` and funds it with
/// `lamports`, with room for `space` bytes, owned by `owner`.
pub open spec fn create_account_instruction(
    payer: Address,
    new_account: Address,
    lamports: u64,
    space: u64,
    owner: Address,
) -> InstructionView {
    InstructionView {
        program_id: SYSTEM_PROGRAM_ID,
        accounts: seq![
            AccountMeta { pubkey: payer, is_signer: true, is_writable: true },
            AccountMeta { pubkey: new_account, is_signer: true, is_writable: true },
        ],
        data: create_account_data(lamports, space, owner),
    }
}

/// The creation of a record's account at an address of the protocol's own,
/// for which the program signs with `signer_seeds`.
pub open spec fn creation(
    payer: Address,
    new_account: Address,
    lamports: u64,
    space: u64,
    owner: Address,
    signer_seeds: Seq<Seq<u8>>,
) -> InvocationView {
    InvocationView {
        instruction: create_account_instruction(payer, new_account, lamports, space, owner),
        signer_seeds,
    }
}

/// Calls `system_instruction::create_account` of `solana_program`. The
/// contract says what its source shows: the instruction is for the system
/// program and names the payer and the new account, both signing and both
/// writable; its data is the instruction's number, 0, in four bytes, then
/// lamports and space in eight little-endian bytes each, then the owner.
#[verifier::external_body]
#[allow(deprecated)]
fn system_create_account(
    payer: &Address,
    new_account: &Address,
    lamports: u64,
    space: u64,
    owner: &Address,
) -> (built: Instruction)
    ensures
        built@ == create_account_instruction(*payer, *new_account, lamports, space, *owner),
{
    let (from, to) = (Pubkey::new_from_array(*payer), Pubkey::new_from_array(*new_account));
    let program = Pubkey::new_from_array(*owner);
    let built = solana_program::system_instruction::create_account(
        &from, &to, lamports, space, &program,
    );
    let accounts = built.accounts.iter().map(
        |meta| AccountMeta {
            pubkey: meta.pubkey.to_bytes(),
            is_signer: meta.is_signer,
            is_writable: meta.is_writable,
        },
    ).collect();
    Instruction { program_id: built.program_id.to_bytes(), accounts, data: built.data }
}

/// Orders the creation of the account at `new_account`, an address of the
/// protocol's own: `payer` funds it with `lamports`, it gets room for
/// `space` bytes and belongs to `owner`, and the program signs for it with
/// `signer_seeds`.
pub fn create_account(
    payer: &Address,
    new_account: &Address,
    lamports: u64,
    space: u64,
    owner: &Address,
    signer_seeds: Vec<Vec<u8>>,
) -> (order: Invocation)
    ensures
        order@ == creation(
            *payer,
            *new_account,
            lamports,
            space,
            *owner,
            seeds_view(&signer_seeds),
        ),
{
    let instruction = system_create_account(payer, new_account, lamports, space, owner);
    Invocation { instruction, signer_seeds }
}

} // verus!
