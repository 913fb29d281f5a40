//! The ways in which a staking operation is refused.
use vstd::prelude::*;

verus! {

/// Why an operation was refused. Every refusal aborts the whole operation:
/// nothing is written and nothing is transferred.
#[derive(Clone, Copy, Debug, PartialEq, Eq, Structural)]
pub enum StakingError {
    /// An account was offered in place of the one that the protocol derives.
    AddressMismatch,
    /// The pool record already exists.
    AlreadyInitialized,
    /// More principal was asked back than the user has staked.
    InsufficientPrincipal,
    /// A claim found no reward to pay.
    NothingToClaim,
    /// The source of a transfer does not hold the amount to move.
    InsufficientFunds,
    /// The vault holds too little beyond the staked principal to pay a reward.
    InsufficientRewardReserve,
    /// A reward, a balance or an elapsed time does not fit its integer type.
    ArithmeticOverflow,
    /// The payer cannot fund the deposit that keeps a new record on the ledger.
    RentNotExempt,
    /// A token account or a stake record belongs to someone else.
    OwnerMismatch,
    /// A token account holds another type of token than the pool's.
    MintMismatch,
    /// An amount of zero was given.
    InvalidAmount,
    /// The account that must authorise the operation did not sign.
    MissingSignature,
    /// Fewer accounts were passed than the operation reads.
    NotEnoughAccounts,
    /// The instruction bytes name no operation.
    InvalidInstruction,
    /// An account's bytes are not a record of the expected kind.
    InvalidAccountData,
    /// A record that must exist has not been created.
    UninitializedAccount,
    /// An account is owned by, or names, another program than expected.
    IncorrectProgram,
}

impl StakingError {
    /// The number under which the ledger reports this error: 0 for a wrong
    /// derived address, 1 for a pool that exists already, 3 for a claim that
    /// finds nothing, and so on.
    pub open spec fn spec_code(self) -> u32 {
        match self {
            StakingError::AddressMismatch => 0,
            StakingError::AlreadyInitialized => 1,
            StakingError::InsufficientPrincipal => 2,
            StakingError::NothingToClaim => 3,
            StakingError::InsufficientFunds => 4,
            StakingError::InsufficientRewardReserve => 5,
            StakingError::ArithmeticOverflow => 6,
            StakingError::RentNotExempt => 7,
            StakingError::OwnerMismatch => 8,
            StakingError::MintMismatch => 9,
            StakingError::InvalidAmount => 10,
            StakingError::MissingSignature => 11,
            StakingError::NotEnoughAccounts => 12,
            StakingError::InvalidInstruction => 13,
            StakingError::InvalidAccountData => 14,
            StakingError::UninitializedAccount => 15,
            StakingError::IncorrectProgram => 16,
        }
    }

    /// The number under which the ledger reports this error.
    #[verifier::when_used_as_spec(spec_code)]
    pub fn code(self) -> (code: u32)
        ensures
            code == self.spec_code(),
    {
        match self {
            StakingError::AddressMismatch => 0,
            StakingError::AlreadyInitialized => 1,
            StakingError::InsufficientPrincipal => 2,
            StakingError::NothingToClaim => 3,
            StakingError::InsufficientFunds => 4,
            StakingError::InsufficientRewardReserve => 5,
            StakingError::ArithmeticOverflow => 6,
            StakingError::RentNotExempt => 7,
            StakingError::OwnerMismatch => 8,
            StakingError::MintMismatch => 9,
            StakingError::InvalidAmount => 10,
            StakingError::MissingSignature => 11,
            StakingError::NotEnoughAccounts => 12,
            StakingError::InvalidInstruction => 13,
            StakingError::InvalidAccountData => 14,
            StakingError::UninitializedAccount => 15,
            StakingError::IncorrectProgram => 16,
        }
    }

    /// The error that the ledger reports under `code`, if there is one.
    pub fn from_code(code: u32) -> (error: Option<StakingError>)
        ensures
            match error {
                Some(e) => e.spec_code() == code,
                None => code > 16,
            },
    {
        match code {
            0 => Some(StakingError::AddressMismatch),
            1 => Some(StakingError::AlreadyInitialized),
            2 => Some(StakingError::InsufficientPrincipal),
            3 => Some(StakingError::NothingToClaim),
            4 => Some(StakingError::InsufficientFunds),
            5 => Some(StakingError::InsufficientRewardReserve),
            6 => Some(StakingError::ArithmeticOverflow),
            7 => Some(StakingError::RentNotExempt),
            8 => Some(StakingError::OwnerMismatch),
            9 => Some(StakingError::MintMismatch),
            10 => Some(StakingError::InvalidAmount),
            11 => Some(StakingError::MissingSignature),
            12 => Some(StakingError::NotEnoughAccounts),
            13 => Some(StakingError::InvalidInstruction),
            14 => Some(StakingError::InvalidAccountData),
            15 => Some(StakingError::UninitializedAccount),
            16 => Some(StakingError::IncorrectProgram),
            _ => None,
        }
    }

    /// A sentence for the user that says what went wrong.
    pub fn message(self) -> (text: &'static str)
        ensures
            text@ == self.spec_message(),
    {
        match self {
            StakingError::AddressMismatch => "Invalid derived address",
            StakingError::AlreadyInitialized => "Pool already initialized",
            StakingError::InsufficientPrincipal => "Unstake amount exceeds staked principal",
            StakingError::NothingToClaim => "Nothing to claim",
            StakingError::InsufficientFunds => "Insufficient funds",
            StakingError::InsufficientRewardReserve => "Insufficient reward reserve",
            StakingError::ArithmeticOverflow => "Arithmetic overflow",
            StakingError::RentNotExempt => "Account is not rent exempt",
            StakingError::OwnerMismatch => "Account has another owner",
            StakingError::MintMismatch => "Token account has another mint",
            StakingError::InvalidAmount => "Amount must be greater than zero",
            StakingError::MissingSignature => "Missing required signature",
            StakingError::NotEnoughAccounts => "Not enough accounts",
            StakingError::InvalidInstruction => "Invalid instruction data",
            StakingError::InvalidAccountData => "Invalid account data",
            StakingError::UninitializedAccount => "Account is not initialized",
            StakingError::IncorrectProgram => "Incorrect program id",
        }
    }

    /// The sentence that `message` gives.
    pub open spec fn spec_message(self) -> Seq<char> {
        match self {
            StakingError::AddressMismatch => "Invalid derived address"@,
            StakingError::AlreadyInitialized => "Pool already initialized"@,
            StakingError::InsufficientPrincipal => "Unstake amount exceeds staked principal"@,
            StakingError::NothingToClaim => "Nothing to claim"@,
            StakingError::InsufficientFunds => "Insufficient funds"@,
            StakingError::InsufficientRewardReserve => "Insufficient reward reserve"@,
            StakingError::ArithmeticOverflow => "Arithmetic overflow"@,
            StakingError::RentNotExempt => "Account is not rent exempt"@,
            StakingError::OwnerMismatch => "Account has another owner"@,
            StakingError::MintMismatch => "Token account has another mint"@,
            StakingError::InvalidAmount => "Amount must be greater than zero"@,
            StakingError::MissingSignature => "Missing required signature"@,
            StakingError::NotEnoughAccounts => "Not enough accounts"@,
            StakingError::InvalidInstruction => "Invalid instruction data"@,
            StakingError::InvalidAccountData => "Invalid account data"@,
            StakingError::UninitializedAccount => "Account is not initialized"@,
            StakingError::IncorrectProgram => "Incorrect program id"@,
        }
    }
}

/// Two errors with the same number are the same error: the number alone
/// tells the caller which kind of refusal it met.
pub proof fn lemma_codes_are_distinct(a: StakingError, b: StakingError)
    requires
        a.spec_code() == b.spec_code(),
    ensures
        a == b,
{
}

} // verus!
