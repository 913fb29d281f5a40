//! Calls that the protocol asks the ledger to make on its behalf: an
//! instruction for another program, and the seeds with which the protocol
//! signs it where the authority is one of its own derived addresses.
use vstd::prelude::*;
use solana_program::program_error::ProgramError;
use crate::address::seeds_view;
use crate::codec::Address;

verus! {

/// `ProgramError` of `solana_program`: why the token program's own code
/// refused to build an instruction or to read an account. Carried through
/// unread, and turned into one of the protocol's errors by the caller.
#[verifier::external_type_specification]
#[verifier::external_body]
pub struct ExProgramError(ProgramError);

/// One account that an instruction touches, and how.
#[derive(Clone, Copy, Debug, PartialEq, Eq)]
pub struct AccountMeta {
    /// The account's address.
    pub pubkey: Address,
    /// Whether the account must have signed.
    pub is_signer: bool,
    /// Whether the instruction may change the account.
    pub is_writable: bool,
}

/// An instruction for another program.
#[derive(Clone, Debug, PartialEq, Eq)]
pub struct Instruction {
    /// The program that is to carry it out.
    pub program_id: Address,
    /// The accounts it touches, in the order the program expects.
    pub accounts: Vec<AccountMeta>,
    /// The operation and its arguments, as that program reads them.
    pub data: Vec<u8>,
}

/// What an `Instruction` says.
pub struct InstructionView {
    pub program_id: Address,
    pub accounts: Seq<AccountMeta>,
    pub data: Seq<u8>,
}

impl View for Instruction {
    type V = InstructionView;

    open spec fn view(&self) -> InstructionView {
        InstructionView { program_id: self.program_id, accounts: self.accounts@, data: self.data@ }
    }
}

/// An instruction together with the authority to issue it.
#[derive(Clone, Debug, PartialEq, Eq)]
pub struct Invocation {
    /// What is to be done.
    pub instruction: Instruction,
    /// The seeds of the derived address that the program signs for. Empty
    /// where the signatures of the request itself are all that is needed.
    pub signer_seeds: Vec<Vec<u8>>,
}

/// What an `Invocation` says.
pub struct InvocationView {
    pub instruction: InstructionView,
    pub signer_seeds: Seq<Seq<u8>>,
}

impl View for Invocation {
    type V = InvocationView;

    open spec fn view(&self) -> InvocationView {
        InvocationView {
            instruction: self.instruction@,
            signer_seeds: seeds_view(&self.signer_seeds),
        }
    }
}

} // verus!
