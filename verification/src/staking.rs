//! The four operations of the protocol. Each derives by itself the addresses
//! at which the pool record and the user's stake record must stand, whatever
//! accounts the caller has offered, and then applies its rule.
//!
//! The accounts come in as plain values, so the caller vouches for what only
//! the ledger can tell: that the user, or the administrator, has signed.
//! `processor` reads that off the account list.
use vstd::prelude::*;
use crate::address::{
    derived_address, find_pool_address, find_user_stake_address, pool_seeds, pool_signer_seeds,
    replay_pool_address, seeded_address, user_stake_seeds,
};
use crate::codec::Address;
use crate::context::{ClaimRewards, Context, InitializePool, Stake, Unstake};
use crate::error::StakingError;
use crate::invocation::Invocation;

verus! {

/// The address at which the pool record of a call must stand: the one that
/// the seeds of the vault's type of token, completed by the bump seed that
/// the record keeps, derive for the program.
pub open spec fn pool_address_of(
    mint: Address,
    authority_bump: u8,
    program_id: Address,
) -> Option<Seq<u8>> {
    seeded_address(pool_signer_seeds(mint@, authority_bump), program_id@)
}

/// The address at which the stake record of `user` in the pool at `pool`
/// must stand, with its bump seed.
pub open spec fn stake_address_of(pool: Address, user: Address, program_id: Address) -> Option<
    (Seq<u8>, u8),
> {
    derived_address(user_stake_seeds(pool@, user@), program_id@)
}

/// Sets up the pool of the token type `ctx.accounts.mint`, paying
/// `reward_rate`. Succeeds exactly where `InitializePool::outcome` does for
/// the address derived from the label of pools and the token type; a second
/// call for the same token type finds the record and is refused. The bump
/// seed that the new record keeps is the one with which the program signs for
/// the pool's address.
pub fn initialize_pool(ctx: &mut Context<InitializePool>, reward_rate: u64) -> (done: Result<
    (),
    StakingError,
>)
    ensures
        final(ctx).program_id == old(ctx).program_id,
        match old(ctx).accounts.outcome(
            reward_rate,
            derived_address(pool_seeds(old(ctx).accounts.mint@), old(ctx).program_id@),
        ) {
            Ok(after) => done.is_ok() && final(ctx).accounts == after,
            Err(e) => done == Err::<(), StakingError>(e) && final(ctx).accounts == old(ctx).accounts,
        },
        done.is_ok() ==> seeded_address(
            pool_signer_seeds(
                old(ctx).accounts.mint@,
                final(ctx).accounts.staking_pool.unwrap().authority_bump,
            ),
            old(ctx).program_id@,
        ) == Some(old(ctx).accounts.staking_pool_key@),
{
    let derived = find_pool_address(&ctx.accounts.mint, &ctx.program_id);
    ctx.accounts.apply(reward_rate, derived)
}

/// The address at which the pool record of a deposit must stand.
pub open spec fn stake_pool_address(ctx: Context<Stake>) -> Option<Seq<u8>> {
    pool_address_of(
        ctx.accounts.vault.mint,
        ctx.accounts.staking_pool.authority_bump,
        ctx.program_id,
    )
}

/// The address at which the stake record of a deposit must stand.
pub open spec fn stake_record_address(ctx: Context<Stake>) -> Option<(Seq<u8>, u8)> {
    stake_address_of(ctx.accounts.staking_pool_key, ctx.accounts.user, ctx.program_id)
}

/// Deposits `amount` tokens of `ctx.accounts.user` at time `now`. Succeeds
/// exactly where `Stake::outcome` does for the derived addresses.
pub fn stake(ctx: &mut Context<Stake>, amount: u64, now: i64) -> (order: Result<
    Invocation,
    StakingError,
>)
    ensures
        final(ctx).program_id == old(ctx).program_id,
        match old(ctx).accounts.outcome(
            amount,
            now,
            stake_pool_address(*old(ctx)),
            stake_record_address(*old(ctx)),
        ) {
            Ok((after, transfer)) => order.is_ok() && order.unwrap()@ == transfer && final(ctx).accounts == after,
            Err(e) => order == Err::<Invocation, StakingError>(e) && final(ctx).accounts == old(ctx).accounts,
        },
{
    let pool_address = replay_pool_address(
        &ctx.accounts.vault.mint,
        ctx.accounts.staking_pool.authority_bump,
        &ctx.program_id,
    );
    let stake_address = find_user_stake_address(
        &ctx.accounts.staking_pool_key,
        &ctx.accounts.user,
        &ctx.program_id,
    );
    ctx.accounts.apply(amount, now, pool_address, stake_address)
}

/// The address at which the pool record of a withdrawal must stand.
pub open spec fn unstake_pool_address(ctx: Context<Unstake>) -> Option<Seq<u8>> {
    pool_address_of(
        ctx.accounts.vault.mint,
        ctx.accounts.staking_pool.authority_bump,
        ctx.program_id,
    )
}

/// The address at which the stake record of a withdrawal must stand.
pub open spec fn unstake_record_address(ctx: Context<Unstake>) -> Option<(Seq<u8>, u8)> {
    stake_address_of(ctx.accounts.staking_pool_key, ctx.accounts.user, ctx.program_id)
}

/// Withdraws `amount` tokens of the principal of `ctx.accounts.user` at time
/// `now`. Succeeds exactly where `Unstake::outcome` does for the derived
/// addresses.
pub fn unstake(ctx: &mut Context<Unstake>, amount: u64, now: i64) -> (order: Result<
    Invocation,
    StakingError,
>)
    ensures
        final(ctx).program_id == old(ctx).program_id,
        match old(ctx).accounts.outcome(
            amount,
            now,
            unstake_pool_address(*old(ctx)),
            unstake_record_address(*old(ctx)),
        ) {
            Ok((after, transfer)) => order.is_ok() && order.unwrap()@ == transfer && final(ctx).accounts == after,
            Err(e) => order == Err::<Invocation, StakingError>(e) && final(ctx).accounts == old(ctx).accounts,
        },
{
    let pool_address = replay_pool_address(
        &ctx.accounts.vault.mint,
        ctx.accounts.staking_pool.authority_bump,
        &ctx.program_id,
    );
    let stake_address = find_user_stake_address(
        &ctx.accounts.staking_pool_key,
        &ctx.accounts.user,
        &ctx.program_id,
    );
    ctx.accounts.apply(amount, now, pool_address, stake_address)
}

/// The address at which the pool record of a claim must stand.
pub open spec fn claim_pool_address(ctx: Context<ClaimRewards>) -> Option<Seq<u8>> {
    pool_address_of(
        ctx.accounts.vault.mint,
        ctx.accounts.staking_pool.authority_bump,
        ctx.program_id,
    )
}

/// The address at which the stake record of a claim must stand.
pub open spec fn claim_record_address(ctx: Context<ClaimRewards>) -> Option<(Seq<u8>, u8)> {
    stake_address_of(ctx.accounts.staking_pool_key, ctx.accounts.user, ctx.program_id)
}

/// Pays out the reward owed to `ctx.accounts.user` at time `now`. Succeeds
/// exactly where `ClaimRewards::outcome` does for the derived addresses.
pub fn claim_rewards(ctx: &mut Context<ClaimRewards>, now: i64) -> (order: Result<
    Invocation,
    StakingError,
>)
    ensures
        final(ctx).program_id == old(ctx).program_id,
        match old(ctx).accounts.outcome(
            now,
            claim_pool_address(*old(ctx)),
            claim_record_address(*old(ctx)),
        ) {
            Ok((after, transfer)) => order.is_ok() && order.unwrap()@ == transfer && final(ctx).accounts == after,
            Err(e) => order == Err::<Invocation, StakingError>(e) && final(ctx).accounts == old(ctx).accounts,
        },
{
    let pool_address = replay_pool_address(
        &ctx.accounts.vault.mint,
        ctx.accounts.staking_pool.authority_bump,
        &ctx.program_id,
    );
    let stake_address = find_user_stake_address(
        &ctx.accounts.staking_pool_key,
        &ctx.accounts.user,
        &ctx.program_id,
    );
    ctx.accounts.apply(now, pool_address, stake_address)
}

/// The program signs a withdrawal for the address that owns the vault, and
/// for no other: the seeds that the order carries derive the address that the
/// order names as authority, the vault is under that address, and the tokens
/// leave the vault that the pool names.
pub proof fn lemma_unstake_signs_as_vault_owner(
    ctx: Unstake,
    amount: u64,
    now: i64,
    program_id: Address,
    stake_address: Option<(Seq<u8>, u8)>,
)
    requires
        ctx.outcome(
            amount,
            now,
            pool_address_of(ctx.vault.mint, ctx.staking_pool.authority_bump, program_id),
            stake_address,
        ).is_ok(),
    ensures
        ({
            let (after, transfer) = ctx.outcome(
                amount,
                now,
                pool_address_of(ctx.vault.mint, ctx.staking_pool.authority_bump, program_id),
                stake_address,
            ).unwrap();
            &&& seeded_address(transfer.signer_seeds, program_id@) == Some(ctx.vault.owner@)
            &&& transfer.instruction.accounts[2].pubkey == ctx.vault.owner
            &&& transfer.instruction.accounts[2].is_signer
            &&& transfer.instruction.accounts[0].pubkey == ctx.staking_pool.vault
            &&& transfer.instruction.accounts[1].pubkey == ctx.user_token_account.key
            &&& ctx.user_token_account.owner == ctx.user
        }),
{
}

/// The program signs the payment of a reward for the address that owns the
/// vault, and for no other.
pub proof fn lemma_claim_signs_as_vault_owner(
    ctx: ClaimRewards,
    now: i64,
    program_id: Address,
    stake_address: Option<(Seq<u8>, u8)>,
)
    requires
        ctx.outcome(
            now,
            pool_address_of(ctx.vault.mint, ctx.staking_pool.authority_bump, program_id),
            stake_address,
        ).is_ok(),
    ensures
        ({
            let (after, transfer) = ctx.outcome(
                now,
                pool_address_of(ctx.vault.mint, ctx.staking_pool.authority_bump, program_id),
                stake_address,
            ).unwrap();
            &&& seeded_address(transfer.signer_seeds, program_id@) == Some(ctx.vault.owner@)
            &&& transfer.instruction.accounts[2].pubkey == ctx.vault.owner
            &&& transfer.instruction.accounts[2].is_signer
            &&& transfer.instruction.accounts[0].pubkey == ctx.staking_pool.vault
            &&& transfer.instruction.accounts[1].pubkey == ctx.user_token_account.key
            &&& ctx.user_token_account.owner == ctx.user
        }),
{
}

/// A deposit is ordered in the user's own name, out of the user's own
/// token account and into the vault that the pool names; the program signs
/// nothing.
pub proof fn lemma_stake_is_signed_by_the_user(
    ctx: Stake,
    amount: u64,
    now: i64,
    pool_address: Option<Seq<u8>>,
    stake_address: Option<(Seq<u8>, u8)>,
)
    requires
        ctx.outcome(amount, now, pool_address, stake_address).is_ok(),
    ensures
        ({
            let (after, transfer) = ctx.outcome(amount, now, pool_address, stake_address).unwrap();
            &&& transfer.signer_seeds.len() == 0
            &&& transfer.instruction.accounts[2].pubkey == ctx.user
            &&& transfer.instruction.accounts[2].is_signer
            &&& transfer.instruction.accounts[0].pubkey == ctx.user_token_account.key
            &&& ctx.user_token_account.owner == ctx.user
            &&& transfer.instruction.accounts[1].pubkey == ctx.staking_pool.vault
        }),
{
}

} // verus!
