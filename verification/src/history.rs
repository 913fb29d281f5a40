//! Histories of a pool: what holds of it whatever operations are attempted,
//! by however many users and in whatever order.
use vstd::prelude::*;
use crate::context::{
    custody_fault, record_fault, ClaimRewards, InitializePool, Stake, Unstake,
};
use crate::error::StakingError;
use crate::invocation::InvocationView;
use crate::processor::{
    claim_accounts_with, claim_rewards_effects, initialize_pool_effects, token_account_in,
    AccountInfo, EffectsView, Runtime,
};
use crate::staking::{pool_address_of, stake_address_of};
use crate::reward::{accrued, lemma_reward_adds_up, reward};
use crate::state::{StakingPool, UserStakeInfo};
use crate::token::{transfer_by_pool, TOKEN_PROGRAM_ID};

verus! {

/// One pool and the stake records of its users, one place for each user;
/// `None` for a user who has not staked yet.
pub struct Ledger {
    pub pool: StakingPool,
    pub stakes: Seq<Option<UserStakeInfo>>,
}

/// An attempt at an operation, with the accounts it was called on and the
/// addresses that the protocol derived for them.
#[allow(inconsistent_fields)]
pub enum Attempt {
    Stake {
        ctx: Stake,
        amount: u64,
        now: i64,
        pool_address: Option<Seq<u8>>,
        stake_address: Option<(Seq<u8>, u8)>,
    },
    Unstake {
        ctx: Unstake,
        amount: u64,
        now: i64,
        pool_address: Option<Seq<u8>>,
        stake_address: Option<(Seq<u8>, u8)>,
    },
    ClaimRewards {
        ctx: ClaimRewards,
        now: i64,
        pool_address: Option<Seq<u8>>,
        stake_address: Option<(Seq<u8>, u8)>,
    },
}

/// An attempt, and the place of the user whose stake record it is made on.
pub struct Step {
    pub user: int,
    pub attempt: Attempt,
}

/// The principal that a place holds.
pub open spec fn principal(stake: Option<UserStakeInfo>) -> int {
    match stake {
        Some(record) => record.amount as int,
        None => 0,
    }
}

/// Sum of the principal of all users.
pub open spec fn total_principal(stakes: Seq<Option<UserStakeInfo>>) -> int
    decreases stakes.len(),
{
    if stakes.len() == 0 {
        0
    } else {
        total_principal(stakes.drop_last()) + principal(stakes.last())
    }
}

/// What an attempt leaves where it is accepted: the pool record, the user's
/// stake record, and the principal that it orders into the vault (negative
/// where it orders principal out of it). `None` where the attempt is refused.
/// Every operation reads the records as they stand on the ledger when it
/// starts, whatever the caller believed them to be.
pub open spec fn accepted(ledger: Ledger, s: Step) -> Option<(StakingPool, UserStakeInfo, int)> {
    if !(0 <= s.user < ledger.stakes.len()) {
        None
    } else {
        match s.attempt {
            Attempt::Stake { ctx, amount, now, pool_address, stake_address } => {
                let read = Stake {
                    staking_pool: ledger.pool,
                    user_stake_account: ledger.stakes[s.user],
                    ..ctx
                };
                match read.outcome(amount, now, pool_address, stake_address) {
                    Ok((after, _)) => Some(
                        (after.staking_pool, after.user_stake_account.unwrap(), amount as int),
                    ),
                    Err(_) => None,
                }
            },
            Attempt::Unstake { ctx, amount, now, pool_address, stake_address } => {
                match ledger.stakes[s.user] {
                    None => None,
                    Some(record) => {
                        let read = Unstake {
                            staking_pool: ledger.pool,
                            user_stake_account: record,
                            ..ctx
                        };
                        match read.outcome(amount, now, pool_address, stake_address) {
                            Ok((after, _)) => Some(
                                (after.staking_pool, after.user_stake_account, -(amount as int)),
                            ),
                            Err(_) => None,
                        }
                    },
                }
            },
            Attempt::ClaimRewards { ctx, now, pool_address, stake_address } => {
                match ledger.stakes[s.user] {
                    None => None,
                    Some(record) => {
                        let read = ClaimRewards {
                            staking_pool: ledger.pool,
                            user_stake_account: record,
                            ..ctx
                        };
                        match read.outcome(now, pool_address, stake_address) {
                            Ok((after, _)) => Some(
                                (after.staking_pool, after.user_stake_account, 0int),
                            ),
                            Err(_) => None,
                        }
                    },
                }
            },
        }
    }
}

/// The ledger after one attempt. An attempt that is refused leaves the
/// ledger as it was.
pub open spec fn step(ledger: Ledger, s: Step) -> Ledger {
    match accepted(ledger, s) {
        Some((pool, record, _)) => Ledger {
            pool,
            stakes: ledger.stakes.update(s.user, Some(record)),
        },
        None => ledger,
    }
}

/// The ledger after a sequence of attempts, made one after the other.
pub open spec fn run(ledger: Ledger, steps: Seq<Step>) -> Ledger
    decreases steps.len(),
{
    if steps.len() == 0 {
        ledger
    } else {
        step(run(ledger, steps.drop_last()), steps.last())
    }
}

/// The principal that a sequence of attempts orders into the vault for one
/// user, less what it orders out of it for that user.
pub open spec fn net_deposits(ledger: Ledger, steps: Seq<Step>, user: int) -> int
    decreases steps.len(),
{
    if steps.len() == 0 {
        0
    } else {
        let before = run(ledger, steps.drop_last());
        net_deposits(ledger, steps.drop_last(), user) + match accepted(before, steps.last()) {
            Some((_, _, moved)) if steps.last().user == user => moved,
            _ => 0,
        }
    }
}

/// Whether the pool's total is the sum of its users' principal.
pub open spec fn balanced(ledger: Ledger) -> bool {
    ledger.pool.total_staked == total_principal(ledger.stakes)
}

/// Replacing one user's record changes the sum of principal by the change
/// in that user's principal.
pub proof fn lemma_total_principal_update(
    stakes: Seq<Option<UserStakeInfo>>,
    user: int,
    stake: Option<UserStakeInfo>,
)
    requires
        0 <= user < stakes.len(),
    ensures
        total_principal(stakes.update(user, stake)) == total_principal(stakes) - principal(
            stakes[user],
        ) + principal(stake),
    decreases stakes.len(),
{
    let updated = stakes.update(user, stake);
    if user == stakes.len() - 1 {
        assert(updated.drop_last() =~= stakes.drop_last());
    } else {
        lemma_total_principal_update(stakes.drop_last(), user, stake);
        assert(updated.drop_last() =~= stakes.drop_last().update(user, stake));
    }
}

/// No attempt unbalances a balanced ledger.
pub proof fn lemma_step_keeps_balance(ledger: Ledger, s: Step)
    requires
        balanced(ledger),
    ensures
        balanced(step(ledger, s)),
{
    if 0 <= s.user < ledger.stakes.len() {
        let after = step(ledger, s);
        lemma_total_principal_update(ledger.stakes, s.user, after.stakes[s.user]);
    }
}

/// After any sequence of deposits, withdrawals and claims, by any number of
/// users of one pool and whether accepted or refused, the pool's total is the
/// sum of the principal in its users' records, if it was so at the start.
pub proof fn lemma_total_staked_is_sum_of_principal(ledger: Ledger, steps: Seq<Step>)
    requires
        balanced(ledger),
    ensures
        balanced(run(ledger, steps)),
    decreases steps.len(),
{
    if steps.len() > 0 {
        lemma_total_staked_is_sum_of_principal(ledger, steps.drop_last());
        lemma_step_keeps_balance(run(ledger, steps.drop_last()), steps.last());
    }
}

/// A user's principal is what the user has deposited less what the user
/// has withdrawn: over any sequence of attempts, it changes by exactly the
/// tokens that the accepted deposits of this user order into the vault, less
/// those that the accepted withdrawals of this user order out of it.
pub proof fn lemma_principal_is_deposits_less_withdrawals(
    ledger: Ledger,
    steps: Seq<Step>,
    user: int,
)
    requires
        0 <= user < ledger.stakes.len(),
    ensures
        run(ledger, steps).stakes.len() == ledger.stakes.len(),
        principal(run(ledger, steps).stakes[user]) == principal(ledger.stakes[user])
            + net_deposits(ledger, steps, user),
    decreases steps.len(),
{
    if steps.len() > 0 {
        lemma_principal_is_deposits_less_withdrawals(ledger, steps.drop_last(), user);
    }
}

/// A pool that has just been set up, with no stake record written yet, is
/// balanced.
pub proof fn lemma_new_pool_is_balanced(
    ctx: InitializePool,
    reward_rate: u64,
    derived: Option<(Seq<u8>, u8)>,
    users: nat,
)
    requires
        ctx.outcome(reward_rate, derived).is_ok(),
    ensures
        balanced(
            Ledger {
                pool: ctx.outcome(reward_rate, derived).unwrap().staking_pool.unwrap(),
                stakes: Seq::new(users, |i: int| None::<UserStakeInfo>),
            },
        ),
{
    lemma_no_principal(users);
}

/// Where nobody has staked, the sum of principal is zero.
proof fn lemma_no_principal(users: nat)
    ensures
        total_principal(Seq::new(users, |i: int| None::<UserStakeInfo>)) == 0,
    decreases users,
{
    if users > 0 {
        lemma_no_principal((users - 1) as nat);
        assert(Seq::new(users, |i: int| None::<UserStakeInfo>).drop_last() =~= Seq::new(
            (users - 1) as nat,
            |i: int| None::<UserStakeInfo>,
        ));
    }
}

/// Setting a pool up twice for one type of token: once a first call has
/// written the record, a second call, by whomever, with whatever rate and
/// vault, is refused. It is refused as already initialized where it names
/// the account that holds the record, and as offering a wrong address where
/// it names another. The record of the first call stays, since a refusal
/// changes nothing.
pub proof fn lemma_second_initialize_is_refused(
    first: InitializePool,
    first_rate: u64,
    second: InitializePool,
    second_rate: u64,
    derived: Option<(Seq<u8>, u8)>,
)
    requires
        first.outcome(first_rate, derived).is_ok(),
        second.staking_pool_key == first.staking_pool_key ==> second.staking_pool
            == first.outcome(first_rate, derived).unwrap().staking_pool,
    ensures
        second.outcome(second_rate, derived) == Err::<InitializePool, StakingError>(
            if second.staking_pool_key == first.staking_pool_key {
                StakingError::AlreadyInitialized
            } else {
                StakingError::AddressMismatch
            },
        ),
{
    if second.staking_pool_key@ == first.staking_pool_key@ {
        assert(second.staking_pool_key =~= first.staking_pool_key);
    }
}

/// Setting a pool up on the ledger twice: once the pool's account holds a
/// record, every further call signed by an administrator is refused as
/// already initialized, and so asks for no write.
pub proof fn lemma_initialized_account_is_refused(
    program_id: crate::codec::Address,
    accounts: Seq<AccountInfo>,
    reward_rate: u64,
    runtime: Runtime,
)
    requires
        accounts.len() >= 5,
        accounts[1].is_signer,
        accounts[0].data@.len() > 0,
    ensures
        initialize_pool_effects(program_id, accounts, reward_rate, runtime) == Err::<
            EffectsView,
            StakingError,
        >(StakingError::AlreadyInitialized),
{
}

/// Whether two pool records differ in nothing but the total staked.
pub open spec fn same_terms(before: StakingPool, after: StakingPool) -> bool {
    &&& after.administrator == before.administrator
    &&& after.reward_rate == before.reward_rate
    &&& after.vault == before.vault
    &&& after.authority_bump == before.authority_bump
}

/// Over any sequence of attempts the pool keeps its rate, its vault, its
/// administrator and its bump seed: only the total staked ever changes.
pub proof fn lemma_pool_terms_never_change(ledger: Ledger, steps: Seq<Step>)
    ensures
        same_terms(ledger.pool, run(ledger, steps).pool),
    decreases steps.len(),
{
    if steps.len() > 0 {
        lemma_pool_terms_never_change(ledger, steps.drop_last());
    }
}

/// The time of the last accrual in a place: none before the first deposit.
pub open spec fn accrual_time(stake: Option<UserStakeInfo>) -> Option<i64> {
    match stake {
        Some(record) => Some(record.last_accrual_time),
        None => None,
    }
}

/// Whether a record's accrual time `after` is no earlier than `before`, and
/// the record, once written, is still there.
pub open spec fn not_earlier(before: Option<i64>, after: Option<i64>) -> bool {
    match before {
        Some(t) => after.is_some() && t <= after.unwrap(),
        None => true,
    }
}

/// No attempt moves the time of a record's last accrual back.
pub proof fn lemma_step_keeps_time(ledger: Ledger, s: Step, user: int)
    requires
        0 <= user < ledger.stakes.len(),
    ensures
        step(ledger, s).stakes.len() == ledger.stakes.len(),
        not_earlier(accrual_time(ledger.stakes[user]), accrual_time(step(ledger, s).stakes[user])),
{
}

/// Over any sequence of attempts, the time of a record's last accrual never
/// decreases.
pub proof fn lemma_accrual_time_never_decreases(ledger: Ledger, steps: Seq<Step>, user: int)
    requires
        0 <= user < ledger.stakes.len(),
    ensures
        run(ledger, steps).stakes.len() == ledger.stakes.len(),
        not_earlier(accrual_time(ledger.stakes[user]), accrual_time(run(ledger, steps).stakes[user])),
    decreases steps.len(),
{
    if steps.len() > 0 {
        lemma_accrual_time_never_decreases(ledger, steps.drop_last(), user);
        lemma_step_keeps_time(run(ledger, steps.drop_last()), steps.last(), user);
    }
}

/// Bringing the reward up to date at some time in between changes nothing in
/// what is owed later, as long as the principal stays the same: the segments
/// add up to the whole.
pub proof fn lemma_accrual_in_segments(stake: UserStakeInfo, rate: u64, between: i64, now: i64)
    requires
        stake.last_accrual_time <= between <= now,
        accrued(stake, rate, between).is_ok(),
    ensures
        accrued(
            UserStakeInfo {
                pending_rewards: accrued(stake, rate, between).unwrap(),
                last_accrual_time: between,
                ..stake
            },
            rate,
            now,
        ) == accrued(stake, rate, now),
{
    lemma_reward_adds_up(rate, stake.amount, between - stake.last_accrual_time, now - between);
}

/// A principal `p`, staked for `t` seconds at rate `r` with nothing pending
/// at the start and no claim in between, is paid exactly `r * p * t` by the
/// claim that ends the stretch, where that claim is accepted.
pub proof fn lemma_claim_pays_rate_times_principal_times_time(
    ctx: ClaimRewards,
    now: i64,
    pool_address: Option<Seq<u8>>,
    stake_address: Option<(Seq<u8>, u8)>,
)
    requires
        ctx.user_stake_account.pending_rewards == 0,
        ctx.outcome(now, pool_address, stake_address).is_ok(),
    ensures
        ({
            let r = ctx.staking_pool.reward_rate as int;
            let p = ctx.user_stake_account.amount as int;
            let t = now - ctx.user_stake_account.last_accrual_time;
            let (after, transfer) = ctx.outcome(now, pool_address, stake_address).unwrap();
            &&& 0 < r * p * t <= u64::MAX
            &&& transfer == transfer_by_pool(
                ctx.vault.key,
                ctx.user_token_account.key,
                ctx.staking_pool_key,
                ctx.vault.mint,
                ctx.staking_pool.authority_bump,
                (r * p * t) as u64,
            )
            &&& after.user_stake_account.pending_rewards == 0
            &&& after.user_stake_account.amount == p
        }),
{
    let r = ctx.staking_pool.reward_rate as int;
    let p = ctx.user_stake_account.amount as int;
    let t = now - ctx.user_stake_account.last_accrual_time;
    assert(t * r * p == r * p * t) by (nonlinear_arith);
}

/// Whether nothing is wrong with the accounts of a claim: the token program
/// is the one named, the records stand at the addresses derived for them, the
/// vault is the pool's and under its authority, and the stake record and the
/// token account are the user's.
pub open spec fn claim_in_order(
    ctx: ClaimRewards,
    pool_address: Option<Seq<u8>>,
    stake_address: Option<(Seq<u8>, u8)>,
) -> bool {
    &&& ctx.token_program == TOKEN_PROGRAM_ID
    &&& custody_fault(
        ctx.staking_pool_key,
        ctx.staking_pool,
        ctx.vault,
        ctx.user,
        ctx.user_token_account,
        pool_address,
    ).is_none()
    &&& record_fault(
        ctx.user_stake_key,
        ctx.user_stake_account.owner,
        ctx.user,
        stake_address,
    ).is_none()
}

/// The reward that a principal staked since the last accrual, with nothing
/// pending then, has earned at `now`: rate times principal times time.
pub open spec fn earned(ctx: ClaimRewards, now: i64) -> int {
    ctx.staking_pool.reward_rate * ctx.user_stake_account.amount * (now
        - ctx.user_stake_account.last_accrual_time)
}

/// What a claim asks for and leaves that pays `amount` at `now`.
pub open spec fn paid(ctx: ClaimRewards, now: i64, amount: u64) -> (ClaimRewards, InvocationView) {
    (
        ClaimRewards {
            user_stake_account: UserStakeInfo {
                pending_rewards: 0,
                last_accrual_time: now,
                ..ctx.user_stake_account
            },
            ..ctx
        },
        transfer_by_pool(
            ctx.vault.key,
            ctx.user_token_account.key,
            ctx.staking_pool_key,
            ctx.vault.mint,
            ctx.staking_pool.authority_bump,
            amount,
        ),
    )
}

/// A principal `p`, staked for `t` seconds at rate `r` with nothing pending
/// at the start and no claim in between, is owed `r * p * t`, and the claim
/// that ends the stretch pays exactly that to the user's token account: it
/// is accepted wherever its accounts are in order, the amount is more than
/// nothing and fits, and the vault holds it on top of all that is staked.
pub proof fn lemma_claim_in_order_pays_rate_times_principal_times_time(
    ctx: ClaimRewards,
    now: i64,
    pool_address: Option<Seq<u8>>,
    stake_address: Option<(Seq<u8>, u8)>,
)
    requires
        claim_in_order(ctx, pool_address, stake_address),
        ctx.user_stake_account.pending_rewards == 0,
        ctx.user_stake_account.last_accrual_time <= now,
        0 < earned(ctx, now) <= u64::MAX,
        ctx.staking_pool.total_staked + earned(ctx, now) <= ctx.vault.amount,
    ensures
        ctx.outcome(now, pool_address, stake_address) == Ok::<
            (ClaimRewards, InvocationView),
            StakingError,
        >(paid(ctx, now, earned(ctx, now) as u64)),
{
    let r = ctx.staking_pool.reward_rate as int;
    let p = ctx.user_stake_account.amount as int;
    let t = now - ctx.user_stake_account.last_accrual_time;
    assert(t * r * p == r * p * t) by (nonlinear_arith);
}

/// The same on the ledger: where the accounts of a claim can be read and are
/// in order, nothing was pending, and `r * p * t` is more than nothing, fits,
/// and is held by the vault on top of all that is staked, the claim is
/// accepted, asks for one transfer, of exactly `r * p * t`, from the vault to
/// the user's token account, and stores the stake record with nothing
/// pending.
pub proof fn lemma_process_claim_pays_rate_times_principal_times_time(
    program_id: crate::codec::Address,
    accounts: Seq<AccountInfo>,
    runtime: Runtime,
)
    requires
        accounts.len() >= 6,
        claim_accounts_with(
            program_id,
            accounts,
            token_account_in(accounts[1]),
            token_account_in(accounts[3]),
        ).is_ok(),
        ({
            let ctx = claim_accounts_with(
                program_id,
                accounts,
                token_account_in(accounts[1]),
                token_account_in(accounts[3]),
            ).unwrap();
            &&& claim_in_order(
                ctx,
                pool_address_of(ctx.vault.mint, ctx.staking_pool.authority_bump, program_id),
                stake_address_of(ctx.staking_pool_key, ctx.user, program_id),
            )
            &&& ctx.user_stake_account.pending_rewards == 0
            &&& ctx.user_stake_account.last_accrual_time <= runtime.now
            &&& 0 < earned(ctx, runtime.now) <= u64::MAX
            &&& ctx.staking_pool.total_staked + earned(ctx, runtime.now) <= ctx.vault.amount
        }),
    ensures
        ({
            let ctx = claim_accounts_with(
                program_id,
                accounts,
                token_account_in(accounts[1]),
                token_account_in(accounts[3]),
            ).unwrap();
            let (after, transfer) = paid(ctx, runtime.now, earned(ctx, runtime.now) as u64);
            &&& ctx.user == accounts[2].key
            &&& ctx.user_token_account.key == accounts[3].key
            &&& ctx.vault.key == accounts[1].key
            &&& claim_rewards_effects(program_id, accounts, runtime) == Ok::<
                EffectsView,
                StakingError,
            >(
                EffectsView {
                    invocations: seq![transfer],
                    writes: seq![(4usize, after.user_stake_account.encoding())],
                },
            )
        }),
{
    let ctx = claim_accounts_with(
        program_id,
        accounts,
        token_account_in(accounts[1]),
        token_account_in(accounts[3]),
    ).unwrap();
    lemma_claim_in_order_pays_rate_times_principal_times_time(
        ctx,
        runtime.now,
        pool_address_of(ctx.vault.mint, ctx.staking_pool.authority_bump, program_id),
        stake_address_of(ctx.staking_pool_key, ctx.user, program_id),
    );
}

} // verus!
