//! The protocol as the ledger calls it: instruction bytes and a list of
//! accounts come in; the calls to make on the protocol's behalf and the new
//! contents of its records go out. Nothing is written here: the caller
//! performs the calls in order, then the writes, and drops everything if any
//! of them fails.
//!
//! Which account stands where in the list is part of the wire format:
//!
//! | operation      | 0    | 1             | 2     | 3             | 4              | 5             | 6              |
//! |----------------|------|---------------|-------|---------------|----------------|---------------|----------------|
//! | InitializePool | pool | administrator | vault | mint          | system program |               |                |
//! | Stake          | pool | vault         | user  | user's tokens | stake record   | token program | system program |
//! | Unstake        | pool | vault         | user  | user's tokens | stake record   | token program |                |
//! | ClaimRewards   | pool | vault         | user  | user's tokens | stake record   | token program |                |
use vstd::prelude::*;
use crate::address::{
    derived_address, find_user_stake_address, make_pool_signer_seeds,
    make_user_stake_signer_seeds, pool_seeds, pool_signer_seeds, replay_pool_address,
    seeded_address, user_stake_signer_seeds,
};
use crate::codec::{same_address, Address};
use crate::context::{ClaimRewards, Context, InitializePool, Stake, Unstake};
use crate::error::StakingError;
use crate::instruction::StakingInstruction;
use crate::invocation::{Invocation, InvocationView};
use crate::staking::{
    claim_rewards, initialize_pool, pool_address_of, stake_address_of, unstake,
};
use crate::state::{StakingPool, UserStakeInfo, POOL_LEN, USER_STAKE_LEN};
use crate::system::{create_account, creation, SYSTEM_PROGRAM_ID};
use crate::token::{TokenAccount, TOKEN_PROGRAM_ID};

verus! {

/// An account as the ledger hands it to the program.
#[derive(Clone, Debug, PartialEq, Eq)]
pub struct AccountInfo {
    /// The account's address.
    pub key: Address,
    /// The program that owns the account, and alone may write to it.
    pub owner: Address,
    /// The balance that keeps the account on the ledger.
    pub lamports: u64,
    /// The bytes stored in the account. Empty while the account does not
    /// exist.
    pub data: Vec<u8>,
    /// Whether the account's key has signed the request.
    pub is_signer: bool,
}

/// What the ledger tells the program besides the accounts.
#[derive(Clone, Copy, Debug, PartialEq, Eq)]
pub struct Runtime {
    /// The time, in seconds.
    pub now: i64,
    /// The balance below which the ledger does not keep a pool record.
    pub pool_deposit: u64,
    /// The balance below which the ledger does not keep a stake record.
    pub user_stake_deposit: u64,
}

/// New contents for one of the accounts that were passed in.
#[derive(Clone, Debug, PartialEq, Eq)]
pub struct AccountWrite {
    /// Position of the account in the list.
    pub index: usize,
    /// The bytes that it is to hold.
    pub data: Vec<u8>,
}

/// What an operation that was accepted asks of the ledger.
#[derive(Clone, Debug, PartialEq, Eq)]
pub struct Effects {
    /// The calls to other programs, in the order to make them.
    pub invocations: Vec<Invocation>,
    /// What to store in the protocol's records once the calls have
    /// succeeded.
    pub writes: Vec<AccountWrite>,
}

/// What `Effects` say.
pub struct EffectsView {
    pub invocations: Seq<InvocationView>,
    pub writes: Seq<(usize, Seq<u8>)>,
}

impl View for Effects {
    type V = EffectsView;

    open spec fn view(&self) -> EffectsView {
        EffectsView {
            invocations: Seq::new(self.invocations@.len(), |i: int| self.invocations@[i]@),
            writes: Seq::new(
                self.writes@.len(),
                |i: int| (self.writes@[i].index, self.writes@[i].data@),
            ),
        }
    }
}

/// The pool record that `account` holds, or why it holds none that this
/// program can use.
pub open spec fn pool_in(program_id: Address, account: AccountInfo) -> Result<
    StakingPool,
    StakingError,
> {
    if account.data@.len() == 0 {
        Err(StakingError::UninitializedAccount)
    } else if account.owner != program_id {
        Err(StakingError::IncorrectProgram)
    } else {
        match StakingPool::decoding(account.data@) {
            Some(pool) => Ok(pool),
            None => Err(StakingError::InvalidAccountData),
        }
    }
}

/// The stake record that `account` holds, or why it holds none that this
/// program can use.
pub open spec fn user_stake_in(program_id: Address, account: AccountInfo) -> Result<
    UserStakeInfo,
    StakingError,
> {
    if account.data@.len() == 0 {
        Err(StakingError::UninitializedAccount)
    } else if account.owner != program_id {
        Err(StakingError::IncorrectProgram)
    } else {
        match UserStakeInfo::decoding(account.data@) {
            Some(stake) => Ok(stake),
            None => Err(StakingError::InvalidAccountData),
        }
    }
}

/// The token account that `account` is, or why it is none.
pub open spec fn token_account_in(account: AccountInfo) -> Result<TokenAccount, StakingError> {
    if account.owner != TOKEN_PROGRAM_ID {
        Err(StakingError::IncorrectProgram)
    } else {
        match TokenAccount::unpacking(account.key, account.data@) {
            Some(token_account) => Ok(token_account),
            None => Err(StakingError::InvalidAccountData),
        }
    }
}

/// Reads the pool record out of `account`.
pub fn load_pool(program_id: &Address, account: &AccountInfo) -> (pool: Result<
    StakingPool,
    StakingError,
>)
    ensures
        pool == pool_in(*program_id, *account),
{
    if account.data.len() == 0 {
        Err(StakingError::UninitializedAccount)
    } else if !same_address(&account.owner, program_id) {
        Err(StakingError::IncorrectProgram)
    } else {
        match StakingPool::decode(account.data.as_slice()) {
            Some(pool) => Ok(pool),
            None => Err(StakingError::InvalidAccountData),
        }
    }
}

/// Reads the stake record out of `account`.
pub fn load_user_stake(program_id: &Address, account: &AccountInfo) -> (stake: Result<
    UserStakeInfo,
    StakingError,
>)
    ensures
        stake == user_stake_in(*program_id, *account),
{
    if account.data.len() == 0 {
        Err(StakingError::UninitializedAccount)
    } else if !same_address(&account.owner, program_id) {
        Err(StakingError::IncorrectProgram)
    } else {
        match UserStakeInfo::decode(account.data.as_slice()) {
            Some(stake) => Ok(stake),
            None => Err(StakingError::InvalidAccountData),
        }
    }
}

/// Reads `account` as a token account.
pub fn load_token_account(account: &AccountInfo) -> (token_account: Result<
    TokenAccount,
    StakingError,
>)
    ensures
        token_account == token_account_in(*account),
{
    if !same_address(&account.owner, &TOKEN_PROGRAM_ID) {
        Err(StakingError::IncorrectProgram)
    } else {
        match TokenAccount::unpack(&account.key, account.data.as_slice()) {
            Some(token_account) => Ok(token_account),
            None => Err(StakingError::InvalidAccountData),
        }
    }
}

/// The accounts of a call that sets a pool up, as read from the list, or why
/// they cannot be read. `vault` is what the account at position 2 was read
/// as.
pub open spec fn initialize_accounts_with(
    accounts: Seq<AccountInfo>,
    vault: Result<TokenAccount, StakingError>,
) -> Result<InitializePool, StakingError> {
    if accounts.len() < 5 {
        Err(StakingError::NotEnoughAccounts)
    } else if !accounts[1].is_signer {
        Err(StakingError::MissingSignature)
    } else if accounts[0].data@.len() != 0 {
        Err(StakingError::AlreadyInitialized)
    } else if accounts[4].key != SYSTEM_PROGRAM_ID {
        Err(StakingError::IncorrectProgram)
    } else if vault.is_err() {
        Err(vault.unwrap_err())
    } else {
        Ok(
            InitializePool {
                staking_pool_key: accounts[0].key,
                staking_pool: None,
                authority: accounts[1].key,
                vault: vault.unwrap(),
                mint: accounts[3].key,
            },
        )
    }
}

/// What a pool that was set up asks of the ledger, or why its account cannot
/// be created: the administrator funds the account at the pool's address
/// with the deposit that keeps it, the program signs for the address, and the
/// new record is stored. `after` are the accounts as the call leaves them.
pub open spec fn initialize_requests(
    program_id: Address,
    accounts: Seq<AccountInfo>,
    runtime: Runtime,
    after: InitializePool,
) -> Result<EffectsView, StakingError> {
    if accounts.len() < 5 {
        Err(StakingError::NotEnoughAccounts)
    } else if after.staking_pool.is_none() {
        Err(StakingError::UninitializedAccount)
    } else if accounts[1].lamports < runtime.pool_deposit {
        Err(StakingError::RentNotExempt)
    } else {
        Ok(
            EffectsView {
                invocations: seq![
                    creation(
                        after.authority,
                        after.staking_pool_key,
                        runtime.pool_deposit,
                        POOL_LEN as u64,
                        program_id,
                        pool_signer_seeds(after.mint@, after.staking_pool.unwrap().authority_bump),
                    ),
                ],
                writes: seq![(0usize, after.staking_pool.unwrap().encoding())],
            },
        )
    }
}

/// What setting up a pool with these accounts asks of the ledger, or why it
/// is refused.
pub open spec fn initialize_pool_effects(
    program_id: Address,
    accounts: Seq<AccountInfo>,
    reward_rate: u64,
    runtime: Runtime,
) -> Result<EffectsView, StakingError> {
    if accounts.len() < 5 {
        Err(StakingError::NotEnoughAccounts)
    } else {
        match initialize_accounts_with(accounts, token_account_in(accounts[2])) {
            Err(e) => Err(e),
            Ok(ctx) => match ctx.outcome(
                reward_rate,
                derived_address(pool_seeds(ctx.mint@), program_id@),
            ) {
                Err(e) => Err(e),
                Ok(after) => initialize_requests(program_id, accounts, runtime, after),
            },
        }
    }
}

/// The accounts of a deposit, as read from the list, or why they cannot be
/// read. `vault` and `user_token_account` are what the accounts at positions
/// 1 and 3 were read as.
pub open spec fn stake_accounts_with(
    program_id: Address,
    accounts: Seq<AccountInfo>,
    vault: Result<TokenAccount, StakingError>,
    user_token_account: Result<TokenAccount, StakingError>,
) -> Result<Stake, StakingError> {
    let pool = pool_in(program_id, accounts[0]);
    let is_new = accounts[4].data@.len() == 0;
    let record = user_stake_in(program_id, accounts[4]);
    if accounts.len() < 7 {
        Err(StakingError::NotEnoughAccounts)
    } else if !accounts[2].is_signer {
        Err(StakingError::MissingSignature)
    } else if pool.is_err() {
        Err(pool.unwrap_err())
    } else if vault.is_err() {
        Err(vault.unwrap_err())
    } else if user_token_account.is_err() {
        Err(user_token_account.unwrap_err())
    } else if !is_new && record.is_err() {
        Err(record.unwrap_err())
    } else {
        Ok(
            Stake {
                user: accounts[2].key,
                user_token_account: user_token_account.unwrap(),
                vault: vault.unwrap(),
                staking_pool_key: accounts[0].key,
                staking_pool: pool.unwrap(),
                user_stake_key: accounts[4].key,
                user_stake_account: if is_new {
                    None
                } else {
                    Some(record.unwrap())
                },
                token_program: accounts[5].key,
            },
        )
    }
}

/// What a deposit that was accepted asks of the ledger, or why the record's
/// account cannot be created. Before the first deposit the user funds the
/// account at the record's address with the deposit that keeps it, and the
/// program signs for the address; then the tokens are moved; then both
/// records are stored. `after` are the accounts as the deposit leaves them,
/// `transfer` is the transfer it orders, and `created` the bump seed of the
/// stake record's address where the record is new.
pub open spec fn stake_requests(
    program_id: Address,
    accounts: Seq<AccountInfo>,
    runtime: Runtime,
    after: Stake,
    transfer: InvocationView,
    created: Option<u8>,
) -> Result<EffectsView, StakingError> {
    let writes = seq![
        (0usize, after.staking_pool.encoding()),
        (4usize, after.user_stake_account.unwrap().encoding()),
    ];
    if accounts.len() < 7 {
        Err(StakingError::NotEnoughAccounts)
    } else if after.user_stake_account.is_none() {
        Err(StakingError::UninitializedAccount)
    } else if created.is_none() {
        Ok(EffectsView { invocations: seq![transfer], writes })
    } else if accounts[6].key != SYSTEM_PROGRAM_ID {
        Err(StakingError::IncorrectProgram)
    } else if accounts[2].lamports < runtime.user_stake_deposit {
        Err(StakingError::RentNotExempt)
    } else {
        Ok(
            EffectsView {
                invocations: seq![
                    creation(
                        after.user,
                        after.user_stake_key,
                        runtime.user_stake_deposit,
                        USER_STAKE_LEN as u64,
                        program_id,
                        user_stake_signer_seeds(
                            after.staking_pool_key@,
                            after.user@,
                            created.unwrap(),
                        ),
                    ),
                    transfer,
                ],
                writes,
            },
        )
    }
}

/// What a deposit with these accounts leaves where it is accepted: the
/// accounts after it, the transfer it orders, and the bump seed of the stake
/// record's address where the record is new; or why the deposit is refused.
pub open spec fn stake_applied(
    program_id: Address,
    accounts: Seq<AccountInfo>,
    amount: u64,
    now: i64,
) -> Result<(Stake, InvocationView, Option<u8>), StakingError> {
    if accounts.len() < 7 {
        Err(StakingError::NotEnoughAccounts)
    } else {
        match stake_accounts_with(
            program_id,
            accounts,
            token_account_in(accounts[1]),
            token_account_in(accounts[3]),
        ) {
            Err(e) => Err(e),
            Ok(ctx) => {
                let stake_address = stake_address_of(ctx.staking_pool_key, ctx.user, program_id);
                match ctx.outcome(
                    amount,
                    now,
                    pool_address_of(ctx.vault.mint, ctx.staking_pool.authority_bump, program_id),
                    stake_address,
                ) {
                    Err(e) => Err(e),
                    Ok((after, transfer)) => Ok(
                        (
                            after,
                            transfer,
                            if ctx.user_stake_account.is_none() {
                                Some(stake_address.unwrap().1)
                            } else {
                                None
                            },
                        ),
                    ),
                }
            },
        }
    }
}

/// What a deposit with these accounts asks of the ledger, or why it is
/// refused.
pub open spec fn stake_effects(
    program_id: Address,
    accounts: Seq<AccountInfo>,
    amount: u64,
    runtime: Runtime,
) -> Result<EffectsView, StakingError> {
    match stake_applied(program_id, accounts, amount, runtime.now) {
        Err(e) => Err(e),
        Ok((after, transfer, created)) => stake_requests(
            program_id,
            accounts,
            runtime,
            after,
            transfer,
            created,
        ),
    }
}

/// The accounts of a withdrawal, as read from the list, or why they cannot
/// be read. `vault` and `user_token_account` are what the accounts at
/// positions 1 and 3 were read as.
pub open spec fn unstake_accounts_with(
    program_id: Address,
    accounts: Seq<AccountInfo>,
    vault: Result<TokenAccount, StakingError>,
    user_token_account: Result<TokenAccount, StakingError>,
) -> Result<Unstake, StakingError> {
    let pool = pool_in(program_id, accounts[0]);
    let record = user_stake_in(program_id, accounts[4]);
    if accounts.len() < 6 {
        Err(StakingError::NotEnoughAccounts)
    } else if !accounts[2].is_signer {
        Err(StakingError::MissingSignature)
    } else if pool.is_err() {
        Err(pool.unwrap_err())
    } else if vault.is_err() {
        Err(vault.unwrap_err())
    } else if user_token_account.is_err() {
        Err(user_token_account.unwrap_err())
    } else if record.is_err() {
        Err(record.unwrap_err())
    } else {
        Ok(
            Unstake {
                user: accounts[2].key,
                user_token_account: user_token_account.unwrap(),
                vault: vault.unwrap(),
                staking_pool_key: accounts[0].key,
                staking_pool: pool.unwrap(),
                user_stake_key: accounts[4].key,
                user_stake_account: record.unwrap(),
                token_program: accounts[5].key,
            },
        )
    }
}

/// What a withdrawal that was accepted asks of the ledger: the tokens are
/// moved out of the vault, then both records are stored. `after` are the
/// accounts as the withdrawal leaves them, `transfer` is the transfer it
/// orders.
pub open spec fn unstake_requests(after: Unstake, transfer: InvocationView) -> EffectsView {
    EffectsView {
        invocations: seq![transfer],
        writes: seq![
            (0usize, after.staking_pool.encoding()),
            (4usize, after.user_stake_account.encoding()),
        ],
    }
}

/// What a withdrawal with these accounts asks of the ledger, or why it is
/// refused.
pub open spec fn unstake_effects(
    program_id: Address,
    accounts: Seq<AccountInfo>,
    amount: u64,
    runtime: Runtime,
) -> Result<EffectsView, StakingError> {
    if accounts.len() < 6 {
        Err(StakingError::NotEnoughAccounts)
    } else {
        match unstake_accounts_with(
            program_id,
            accounts,
            token_account_in(accounts[1]),
            token_account_in(accounts[3]),
        ) {
            Err(e) => Err(e),
            Ok(ctx) => match ctx.outcome(
                amount,
                runtime.now,
                pool_address_of(ctx.vault.mint, ctx.staking_pool.authority_bump, program_id),
                stake_address_of(ctx.staking_pool_key, ctx.user, program_id),
            ) {
                Err(e) => Err(e),
                Ok((after, transfer)) => Ok(unstake_requests(after, transfer)),
            },
        }
    }
}

/// The accounts of a claim: those of a withdrawal.
pub open spec fn claim_accounts_with(
    program_id: Address,
    accounts: Seq<AccountInfo>,
    vault: Result<TokenAccount, StakingError>,
    user_token_account: Result<TokenAccount, StakingError>,
) -> Result<ClaimRewards, StakingError> {
    match unstake_accounts_with(program_id, accounts, vault, user_token_account) {
        Err(e) => Err(e),
        Ok(ctx) => Ok(
            ClaimRewards {
                user: ctx.user,
                user_token_account: ctx.user_token_account,
                vault: ctx.vault,
                staking_pool_key: ctx.staking_pool_key,
                staking_pool: ctx.staking_pool,
                user_stake_key: ctx.user_stake_key,
                user_stake_account: ctx.user_stake_account,
                token_program: ctx.token_program,
            },
        ),
    }
}

/// What a claim that was accepted asks of the ledger: the reward is moved
/// out of the vault, then the stake record is stored. `after` are the
/// accounts as the claim leaves them, `transfer` is the transfer it orders.
pub open spec fn claim_requests(after: ClaimRewards, transfer: InvocationView) -> EffectsView {
    EffectsView {
        invocations: seq![transfer],
        writes: seq![(4usize, after.user_stake_account.encoding())],
    }
}

/// What a claim with these accounts asks of the ledger, or why it is
/// refused.
pub open spec fn claim_rewards_effects(
    program_id: Address,
    accounts: Seq<AccountInfo>,
    runtime: Runtime,
) -> Result<EffectsView, StakingError> {
    if accounts.len() < 6 {
        Err(StakingError::NotEnoughAccounts)
    } else {
        match claim_accounts_with(
            program_id,
            accounts,
            token_account_in(accounts[1]),
            token_account_in(accounts[3]),
        ) {
            Err(e) => Err(e),
            Ok(ctx) => match ctx.outcome(
                runtime.now,
                pool_address_of(ctx.vault.mint, ctx.staking_pool.authority_bump, program_id),
                stake_address_of(ctx.staking_pool_key, ctx.user, program_id),
            ) {
                Err(e) => Err(e),
                Ok((after, transfer)) => Ok(claim_requests(after, transfer)),
            },
        }
    }
}

/// What the request that `instruction_data` spells asks of the ledger, or why
/// it is refused.
pub open spec fn process_effects(
    program_id: Address,
    accounts: Seq<AccountInfo>,
    instruction_data: Seq<u8>,
    runtime: Runtime,
) -> Result<EffectsView, StakingError> {
    match StakingInstruction::decoding(instruction_data) {
        None => Err(StakingError::InvalidInstruction),
        Some(StakingInstruction::InitializePool { reward_rate }) => initialize_pool_effects(
            program_id,
            accounts,
            reward_rate,
            runtime,
        ),
        Some(StakingInstruction::Stake { amount }) => stake_effects(
            program_id,
            accounts,
            amount,
            runtime,
        ),
        Some(StakingInstruction::Unstake { amount }) => unstake_effects(
            program_id,
            accounts,
            amount,
            runtime,
        ),
        Some(StakingInstruction::ClaimRewards) => claim_rewards_effects(
            program_id,
            accounts,
            runtime,
        ),
    }
}

/// Whether `creation` creates the account at `address` and carries the seeds
/// with which the program signs for that address.
pub open spec fn signs_for_new_account(
    creation: InvocationView,
    program_id: Address,
    address: Address,
) -> bool {
    &&& creation.instruction.program_id == SYSTEM_PROGRAM_ID
    &&& creation.instruction.accounts.len() == 2
    &&& creation.instruction.accounts[1].pubkey == address
    &&& seeded_address(creation.signer_seeds, program_id@) == Some(address@)
}

/// Whether `result` is what `expected` says, be it effects or a refusal.
pub open spec fn gives(result: Result<Effects, StakingError>, expected: Result<
    EffectsView,
    StakingError,
>) -> bool {
    match expected {
        Ok(effects) => result.is_ok() && result.unwrap()@ == effects,
        Err(e) => result == Err::<Effects, StakingError>(e),
    }
}

/// Reads the accounts of a call that sets a pool up from the list. `vault`
/// is what the account at position 2 was read as.
pub fn read_initialize_accounts(
    accounts: &[AccountInfo],
    vault: Result<TokenAccount, StakingError>,
) -> (ctx: Result<InitializePool, StakingError>)
    ensures
        ctx == initialize_accounts_with(accounts@, vault),
{
    if accounts.len() < 5 {
        return Err(StakingError::NotEnoughAccounts);
    }
    if !accounts[1].is_signer {
        return Err(StakingError::MissingSignature);
    }
    if accounts[0].data.len() != 0 {
        return Err(StakingError::AlreadyInitialized);
    }
    if !same_address(&accounts[4].key, &SYSTEM_PROGRAM_ID) {
        return Err(StakingError::IncorrectProgram);
    }
    Ok(
        InitializePool {
            staking_pool_key: accounts[0].key,
            staking_pool: None,
            authority: accounts[1].key,
            vault: vault?,
            mint: accounts[3].key,
        },
    )
}

/// Puts together what a pool that was set up asks of the ledger.
pub fn request_initialize_pool(
    program_id: &Address,
    accounts: &[AccountInfo],
    runtime: &Runtime,
    after: &InitializePool,
) -> (result: Result<Effects, StakingError>)
    ensures
        gives(result, initialize_requests(*program_id, accounts@, *runtime, *after)),
{
    if accounts.len() < 5 {
        return Err(StakingError::NotEnoughAccounts);
    }
    let pool = match after.staking_pool {
        Some(pool) => pool,
        None => {
            return Err(StakingError::UninitializedAccount);
        },
    };
    if accounts[1].lamports < runtime.pool_deposit {
        return Err(StakingError::RentNotExempt);
    }
    let mut invocations: Vec<Invocation> = Vec::new();
    invocations.push(
        create_account(
            &after.authority,
            &after.staking_pool_key,
            runtime.pool_deposit,
            POOL_LEN as u64,
            program_id,
            make_pool_signer_seeds(&after.mint, pool.authority_bump),
        ),
    );
    let mut writes: Vec<AccountWrite> = Vec::new();
    writes.push(AccountWrite { index: 0, data: pool.encode() });
    let effects = Effects { invocations, writes };
    proof {
        let expected = initialize_requests(*program_id, accounts@, *runtime, *after);
        assert(effects@.invocations =~= expected.unwrap().invocations);
        assert(effects@.writes =~= expected.unwrap().writes);
    }
    Ok(effects)
}

/// Sets up the pool of the token type at position 3 of `accounts`. The
/// account that it has created is the one that the program signs for.
pub fn process_initialize_pool(
    accounts: &[AccountInfo],
    reward_rate: u64,
    program_id: &Address,
    runtime: &Runtime,
) -> (result: Result<Effects, StakingError>)
    ensures
        gives(result, initialize_pool_effects(*program_id, accounts@, reward_rate, *runtime)),
        result matches Ok(effects) ==> signs_for_new_account(
            effects@.invocations[0],
            *program_id,
            accounts@[0].key,
        ),
{
    if accounts.len() < 5 {
        return Err(StakingError::NotEnoughAccounts);
    }
    let vault = load_token_account(&accounts[2]);
    let read = read_initialize_accounts(accounts, vault)?;
    let mut ctx = Context { program_id: *program_id, accounts: read };
    initialize_pool(&mut ctx, reward_rate)?;
    request_initialize_pool(program_id, accounts, runtime, &ctx.accounts)
}

/// Reads the accounts of a deposit from the list. `vault` and
/// `user_token_account` are what the accounts at positions 1 and 3 were read
/// as.
pub fn read_stake_accounts(
    program_id: &Address,
    accounts: &[AccountInfo],
    vault: Result<TokenAccount, StakingError>,
    user_token_account: Result<TokenAccount, StakingError>,
) -> (ctx: Result<Stake, StakingError>)
    ensures
        ctx == stake_accounts_with(*program_id, accounts@, vault, user_token_account),
{
    if accounts.len() < 7 {
        return Err(StakingError::NotEnoughAccounts);
    }
    if !accounts[2].is_signer {
        return Err(StakingError::MissingSignature);
    }
    let staking_pool = load_pool(program_id, &accounts[0])?;
    let vault = vault?;
    let user_token_account = user_token_account?;
    let user_stake_account = if accounts[4].data.len() == 0 {
        None
    } else {
        Some(load_user_stake(program_id, &accounts[4])?)
    };
    Ok(
        Stake {
            user: accounts[2].key,
            user_token_account,
            vault,
            staking_pool_key: accounts[0].key,
            staking_pool,
            user_stake_key: accounts[4].key,
            user_stake_account,
            token_program: accounts[5].key,
        },
    )
}

/// Puts together what an accepted deposit asks of the ledger. `created` is
/// the bump seed of the stake record's address where the record is new.
pub fn request_stake(
    program_id: &Address,
    accounts: &[AccountInfo],
    runtime: &Runtime,
    after: &Stake,
    transfer: Invocation,
    created: Option<u8>,
) -> (result: Result<Effects, StakingError>)
    ensures
        gives(
            result,
            stake_requests(*program_id, accounts@, *runtime, *after, transfer@, created),
        ),
        result matches Ok(effects) ==> match created {
            Some(bump) => effects@.invocations.len() == 2 && effects@.invocations[0] == creation(
                after.user,
                after.user_stake_key,
                runtime.user_stake_deposit,
                USER_STAKE_LEN as u64,
                *program_id,
                user_stake_signer_seeds(after.staking_pool_key@, after.user@, bump),
            ),
            None => effects@.invocations.len() == 1,
        },
{
    if accounts.len() < 7 {
        return Err(StakingError::NotEnoughAccounts);
    }
    let record = match after.user_stake_account {
        Some(record) => record,
        None => {
            return Err(StakingError::UninitializedAccount);
        },
    };
    let mut invocations: Vec<Invocation> = Vec::new();
    if let Some(bump) = created {
        if !same_address(&accounts[6].key, &SYSTEM_PROGRAM_ID) {
            return Err(StakingError::IncorrectProgram);
        }
        if accounts[2].lamports < runtime.user_stake_deposit {
            return Err(StakingError::RentNotExempt);
        }
        invocations.push(
            create_account(
                &after.user,
                &after.user_stake_key,
                runtime.user_stake_deposit,
                USER_STAKE_LEN as u64,
                program_id,
                make_user_stake_signer_seeds(&after.staking_pool_key, &after.user, bump),
            ),
        );
    }
    invocations.push(transfer);
    let mut writes: Vec<AccountWrite> = Vec::new();
    writes.push(AccountWrite { index: 0, data: after.staking_pool.encode() });
    writes.push(AccountWrite { index: 4, data: record.encode() });
    let effects = Effects { invocations, writes };
    proof {
        let expected = stake_requests(
            *program_id,
            accounts@,
            *runtime,
            *after,
            transfer@,
            created,
        );
        assert(effects@.invocations =~= expected.unwrap().invocations);
        assert(effects@.writes =~= expected.unwrap().writes);
    }
    Ok(effects)
}

/// Reads the accounts of a deposit, derives the addresses and applies the
/// rule. The addresses are derived here, since the bump seed of the stake
/// record's address is needed to sign for the creation of its account. Where
/// a bump seed comes back, it completes the seeds of the stake record's
/// address.
fn apply_stake(accounts: &[AccountInfo], amount: u64, program_id: &Address, now: i64) -> (applied:
    Result<(Stake, Invocation, Option<u8>), StakingError>)
    ensures
        match stake_applied(*program_id, accounts@, amount, now) {
            Ok((after, transfer, created)) => applied.is_ok() && applied.unwrap().0 == after
                && applied.unwrap().1@ == transfer && applied.unwrap().2 == created,
            Err(e) => applied == Err::<(Stake, Invocation, Option<u8>), StakingError>(e),
        },
        applied matches Ok((after, _, Some(bump))) ==> after.user_stake_key == accounts@[4].key
            && seeded_address(
            user_stake_signer_seeds(after.staking_pool_key@, after.user@, bump),
            program_id@,
        ) == Some(after.user_stake_key@),
{
    if accounts.len() < 7 {
        return Err(StakingError::NotEnoughAccounts);
    }
    let vault = load_token_account(&accounts[1]);
    let user_token_account = load_token_account(&accounts[3]);
    let mut ctx = read_stake_accounts(program_id, accounts, vault, user_token_account)?;
    let is_new = ctx.user_stake_account.is_none();
    let pool_address = replay_pool_address(
        &ctx.vault.mint,
        ctx.staking_pool.authority_bump,
        program_id,
    );
    let stake_address = find_user_stake_address(&ctx.staking_pool_key, &ctx.user, program_id);
    let transfer = ctx.apply(amount, now, pool_address, stake_address)?;
    let created = match stake_address {
        Some((_, bump)) if is_new => Some(bump),
        _ => None,
    };
    Ok((ctx, transfer, created))
}

/// Deposits `amount` tokens of the user at position 2 of `accounts`. Where
/// an account is created for the stake record, it is the one that the program
/// signs for.
pub fn process_stake(
    accounts: &[AccountInfo],
    amount: u64,
    program_id: &Address,
    runtime: &Runtime,
) -> (result: Result<Effects, StakingError>)
    ensures
        gives(result, stake_effects(*program_id, accounts@, amount, *runtime)),
        result matches Ok(effects) ==> (effects@.invocations.len() == 2 ==> signs_for_new_account(
            effects@.invocations[0],
            *program_id,
            accounts@[4].key,
        )),
{
    let (after, transfer, created) = apply_stake(accounts, amount, program_id, runtime.now)?;
    request_stake(program_id, accounts, runtime, &after, transfer, created)
}

/// Reads the accounts of a withdrawal from the list. `vault` and
/// `user_token_account` are what the accounts at positions 1 and 3 were read
/// as.
pub fn read_unstake_accounts(
    program_id: &Address,
    accounts: &[AccountInfo],
    vault: Result<TokenAccount, StakingError>,
    user_token_account: Result<TokenAccount, StakingError>,
) -> (ctx: Result<Unstake, StakingError>)
    ensures
        ctx == unstake_accounts_with(*program_id, accounts@, vault, user_token_account),
{
    if accounts.len() < 6 {
        return Err(StakingError::NotEnoughAccounts);
    }
    if !accounts[2].is_signer {
        return Err(StakingError::MissingSignature);
    }
    let staking_pool = load_pool(program_id, &accounts[0])?;
    let vault = vault?;
    let user_token_account = user_token_account?;
    let user_stake_account = load_user_stake(program_id, &accounts[4])?;
    Ok(
        Unstake {
            user: accounts[2].key,
            user_token_account,
            vault,
            staking_pool_key: accounts[0].key,
            staking_pool,
            user_stake_key: accounts[4].key,
            user_stake_account,
            token_program: accounts[5].key,
        },
    )
}

/// Reads the accounts of a claim from the list: those of a withdrawal.
pub fn read_claim_accounts(
    program_id: &Address,
    accounts: &[AccountInfo],
    vault: Result<TokenAccount, StakingError>,
    user_token_account: Result<TokenAccount, StakingError>,
) -> (ctx: Result<ClaimRewards, StakingError>)
    ensures
        ctx == claim_accounts_with(*program_id, accounts@, vault, user_token_account),
{
    let read = read_unstake_accounts(program_id, accounts, vault, user_token_account)?;
    Ok(
        ClaimRewards {
            user: read.user,
            user_token_account: read.user_token_account,
            vault: read.vault,
            staking_pool_key: read.staking_pool_key,
            staking_pool: read.staking_pool,
            user_stake_key: read.user_stake_key,
            user_stake_account: read.user_stake_account,
            token_program: read.token_program,
        },
    )
}

/// Puts together what an accepted withdrawal asks of the ledger.
pub fn request_unstake(after: &Unstake, transfer: Invocation) -> (effects: Effects)
    ensures
        effects@ == unstake_requests(*after, transfer@),
{
    let mut invocations: Vec<Invocation> = Vec::new();
    invocations.push(transfer);
    let mut writes: Vec<AccountWrite> = Vec::new();
    writes.push(AccountWrite { index: 0, data: after.staking_pool.encode() });
    writes.push(AccountWrite { index: 4, data: after.user_stake_account.encode() });
    let effects = Effects { invocations, writes };
    proof {
        let expected = unstake_requests(*after, transfer@);
        assert(effects@.invocations =~= expected.invocations);
        assert(effects@.writes =~= expected.writes);
    }
    effects
}

/// Puts together what an accepted claim asks of the ledger.
pub fn request_claim(after: &ClaimRewards, transfer: Invocation) -> (effects: Effects)
    ensures
        effects@ == claim_requests(*after, transfer@),
{
    let mut invocations: Vec<Invocation> = Vec::new();
    invocations.push(transfer);
    let mut writes: Vec<AccountWrite> = Vec::new();
    writes.push(AccountWrite { index: 4, data: after.user_stake_account.encode() });
    let effects = Effects { invocations, writes };
    proof {
        let expected = claim_requests(*after, transfer@);
        assert(effects@.invocations =~= expected.invocations);
        assert(effects@.writes =~= expected.writes);
    }
    effects
}

/// Withdraws `amount` tokens of the principal of the user at position 2 of
/// `accounts`.
pub fn process_unstake(
    accounts: &[AccountInfo],
    amount: u64,
    program_id: &Address,
    runtime: &Runtime,
) -> (result: Result<Effects, StakingError>)
    ensures
        gives(result, unstake_effects(*program_id, accounts@, amount, *runtime)),
{
    if accounts.len() < 6 {
        return Err(StakingError::NotEnoughAccounts);
    }
    let vault = load_token_account(&accounts[1]);
    let user_token_account = load_token_account(&accounts[3]);
    let read = read_unstake_accounts(program_id, accounts, vault, user_token_account)?;
    let mut ctx = Context { program_id: *program_id, accounts: read };
    let transfer = unstake(&mut ctx, amount, runtime.now)?;
    Ok(request_unstake(&ctx.accounts, transfer))
}

/// Pays out the reward owed to the user at position 2 of `accounts`.
pub fn process_claim_rewards(
    accounts: &[AccountInfo],
    program_id: &Address,
    runtime: &Runtime,
) -> (result: Result<Effects, StakingError>)
    ensures
        gives(result, claim_rewards_effects(*program_id, accounts@, *runtime)),
{
    if accounts.len() < 6 {
        return Err(StakingError::NotEnoughAccounts);
    }
    let vault = load_token_account(&accounts[1]);
    let user_token_account = load_token_account(&accounts[3]);
    let read = read_claim_accounts(program_id, accounts, vault, user_token_account)?;
    let mut ctx = Context { program_id: *program_id, accounts: read };
    let transfer = claim_rewards(&mut ctx, runtime.now)?;
    Ok(request_claim(&ctx.accounts, transfer))
}

/// Reads the request from `instruction_data` and carries it out on
/// `accounts`.
pub fn process(
    program_id: &Address,
    accounts: &[AccountInfo],
    instruction_data: &[u8],
    runtime: &Runtime,
) -> (result: Result<Effects, StakingError>)
    ensures
        gives(result, process_effects(*program_id, accounts@, instruction_data@, *runtime)),
{
    let instruction = StakingInstruction::decode(instruction_data)?;
    match instruction {
        StakingInstruction::InitializePool { reward_rate } => process_initialize_pool(
            accounts,
            reward_rate,
            program_id,
            runtime,
        ),
        StakingInstruction::Stake { amount } => process_stake(
            accounts,
            amount,
            program_id,
            runtime,
        ),
        StakingInstruction::Unstake { amount } => process_unstake(
            accounts,
            amount,
            program_id,
            runtime,
        ),
        StakingInstruction::ClaimRewards => process_claim_rewards(accounts, program_id, runtime),
    }
}

} // verus!
