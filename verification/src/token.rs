//! The protocol's side of the token program: what it reads of a token
//! account, and the transfers it orders, either in a user's name or in the
//! name of the pool's own address.
use vstd::prelude::*;
use solana_program::program_error::ProgramError;
use solana_program::program_pack::Pack;
use solana_program::pubkey::Pubkey;
use crate::address::{make_pool_signer_seeds, pool_signer_seeds};
use crate::codec::{address_at, lemma_address_at, u64_le, Address};
use crate::error::StakingError;
use crate::invocation::{AccountMeta, Instruction, InstructionView, Invocation, InvocationView};

verus! {

/// The address of the token program.
pub const TOKEN_PROGRAM_ID: Address = [
    6, 221, 246, 225, 215, 101, 161, 147, 217, 203, 225, 70, 206, 235, 121, 172, 28, 180, 133,
    237, 95, 91, 55, 145, 58, 140, 245, 133, 126, 255, 0, 169,
];

/// What the protocol reads of a token account.
#[derive(Clone, Copy, Debug, PartialEq, Eq)]
pub struct TokenAccount {
    /// The account's own address.
    pub key: Address,
    /// The type of token it holds.
    pub mint: Address,
    /// Who may move the tokens out.
    pub owner: Address,
    /// How many tokens it holds.
    pub amount: u64,
}

/// The type of token, the owner and the balance that the token program reads
/// from the bytes of a token account; `None` where it refuses the bytes.
pub uninterp spec fn unpacked_token_account(data: Seq<u8>) -> Option<(Seq<u8>, Seq<u8>, u64)>;

/// The instruction that moves `amount` tokens from `source` to `destination`
/// on the signature of `authority` alone.
pub open spec fn transfer_instruction(
    source: Address,
    destination: Address,
    authority: Address,
    amount: u64,
) -> InstructionView {
    InstructionView {
        program_id: TOKEN_PROGRAM_ID,
        accounts: seq![
            AccountMeta { pubkey: source, is_signer: false, is_writable: true },
            AccountMeta { pubkey: destination, is_signer: false, is_writable: true },
            AccountMeta { pubkey: authority, is_signer: true, is_writable: false },
        ],
        data: seq![3u8] + u64_le(amount),
    }
}

/// Calls `spl_token::instruction::transfer` with no further signers. The
/// contract says what its source shows: an error for any program but the
/// token program; else the three accounts, source and destination writable,
/// the authority the only signer, and as data the byte 3 followed by the
/// amount in eight little-endian bytes.
#[verifier::external_body]
fn token_transfer(
    token_program: &Address,
    source: &Address,
    destination: &Address,
    authority: &Address,
    amount: u64,
) -> (built: Result<Instruction, ProgramError>)
    ensures
        match built {
            Ok(instruction) => token_program@ == TOKEN_PROGRAM_ID@ && instruction@
                == transfer_instruction(*source, *destination, *authority, amount),
            Err(_) => token_program@ != TOKEN_PROGRAM_ID@,
        },
{
    let (program, from) = (Pubkey::new_from_array(*token_program), Pubkey::new_from_array(*source));
    let (to, signer) = (Pubkey::new_from_array(*destination), Pubkey::new_from_array(*authority));
    let built = spl_token::instruction::transfer(&program, &from, &to, &signer, &[], amount)?;
    let accounts = built.accounts.iter().map(
        |meta| AccountMeta {
            pubkey: meta.pubkey.to_bytes(),
            is_signer: meta.is_signer,
            is_writable: meta.is_writable,
        },
    ).collect();
    Ok(Instruction { program_id: built.program_id.to_bytes(), accounts, data: built.data })
}

/// Calls `spl_token::state::Account::unpack`, and picks the type of token,
/// the owner and the balance out of the account that it returns.
#[verifier::external_body]
fn unpack_token_account(data: &[u8]) -> (unpacked: Result<(Address, Address, u64), ProgramError>)
    ensures
        match unpacked {
            Ok((mint, owner, amount)) => unpacked_token_account(data@) == Some(
                (mint@, owner@, amount),
            ),
            Err(_) => unpacked_token_account(data@).is_none(),
        },
{
    let account = spl_token::state::Account::unpack(data)?;
    Ok((account.mint.to_bytes(), account.owner.to_bytes(), account.amount))
}

impl TokenAccount {
    /// The token account that the token program reads from `data`, as it
    /// stands at `key`; `None` where the token program refuses the bytes.
    pub open spec fn unpacking(key: Address, data: Seq<u8>) -> Option<TokenAccount> {
        match unpacked_token_account(data) {
            Some((mint, owner, amount)) => Some(
                TokenAccount {
                    key,
                    mint: address_at(mint, 0),
                    owner: address_at(owner, 0),
                    amount,
                },
            ),
            None => None,
        }
    }

    /// Reads the token account that stands at `key` from its bytes, as the
    /// token program would. Gives `None` where the token program refuses the
    /// bytes.
    pub fn unpack(key: &Address, data: &[u8]) -> (account: Option<TokenAccount>)
        ensures
            account == TokenAccount::unpacking(*key, data@),
    {
        match unpack_token_account(data) {
            Ok((mint, owner, amount)) => {
                proof {
                    lemma_address_at(mint@, 0);
                    lemma_address_at(owner@, 0);
                    assert(mint =~= address_at(mint@, 0));
                    assert(owner =~= address_at(owner@, 0));
                }
                Some(TokenAccount { key: *key, mint, owner, amount })
            },
            Err(_) => None,
        }
    }
}

/// A transfer that `owner` orders out of an account of their own.
pub open spec fn transfer_by_owner(
    source: Address,
    destination: Address,
    owner: Address,
    amount: u64,
) -> InvocationView {
    InvocationView {
        instruction: transfer_instruction(source, destination, owner, amount),
        signer_seeds: Seq::empty(),
    }
}

/// A transfer out of a vault that the program orders in the name of the
/// pool's address, signing with the seeds of that address.
pub open spec fn transfer_by_pool(
    vault: Address,
    destination: Address,
    pool: Address,
    mint: Address,
    bump: u8,
    amount: u64,
) -> InvocationView {
    InvocationView {
        instruction: transfer_instruction(vault, destination, pool, amount),
        signer_seeds: pool_signer_seeds(mint@, bump),
    }
}

/// Orders the transfer of `amount` tokens from `source` to `destination` in
/// the name of `owner`, who signs the request. Refused for any program but
/// the token program.
pub fn transfer_as_owner(
    token_program: &Address,
    source: &Address,
    destination: &Address,
    owner: &Address,
    amount: u64,
) -> (order: Result<Invocation, StakingError>)
    ensures
        match order {
            Ok(invocation) => token_program@ == TOKEN_PROGRAM_ID@ && invocation@
                == transfer_by_owner(*source, *destination, *owner, amount),
            Err(e) => token_program@ != TOKEN_PROGRAM_ID@ && e == StakingError::IncorrectProgram,
        },
{
    match token_transfer(token_program, source, destination, owner, amount) {
        Ok(instruction) => {
            let invocation = Invocation { instruction, signer_seeds: Vec::new() };
            assert(invocation@.signer_seeds =~= Seq::empty());
            Ok(invocation)
        },
        Err(_) => Err(StakingError::IncorrectProgram),
    }
}

/// Orders the transfer of `amount` tokens out of `vault` in the name of the
/// pool's address, for which the program signs with the seeds that `mint`
/// and `bump` give. Refused for any program but the token program.
pub fn transfer_as_pool(
    token_program: &Address,
    vault: &Address,
    destination: &Address,
    pool: &Address,
    mint: &Address,
    bump: u8,
    amount: u64,
) -> (order: Result<Invocation, StakingError>)
    ensures
        match order {
            Ok(invocation) => token_program@ == TOKEN_PROGRAM_ID@ && invocation@
                == transfer_by_pool(*vault, *destination, *pool, *mint, bump, amount),
            Err(e) => token_program@ != TOKEN_PROGRAM_ID@ && e == StakingError::IncorrectProgram,
        },
{
    match token_transfer(token_program, vault, destination, pool, amount) {
        Ok(instruction) => {
            let signer_seeds = make_pool_signer_seeds(mint, bump);
            Ok(Invocation { instruction, signer_seeds })
        },
        Err(_) => Err(StakingError::IncorrectProgram),
    }
}

} // verus!
