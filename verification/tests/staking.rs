use solana_program::pubkey::Pubkey;
use staking_contract::address::{find_pool_address, find_user_stake_address};
use staking_contract::context::{ClaimRewards, Context, InitializePool, Stake, Unstake};
use staking_contract::error::StakingError;
use staking_contract::invocation::{AccountMeta, Invocation};
use staking_contract::reward::accrue;
use staking_contract::staking;
use staking_contract::state::{StakingPool, UserStakeInfo};
use staking_contract::token::{TokenAccount, TOKEN_PROGRAM_ID};

const PROGRAM: [u8; 32] = [42u8; 32];
const MINT: [u8; 32] = [1u8; 32];
const ADMIN: [u8; 32] = [5u8; 32];
const VAULT: [u8; 32] = [6u8; 32];
const USER: [u8; 32] = [2u8; 32];
const USER_TOKENS: [u8; 32] = [3u8; 32];
const OTHER: [u8; 32] = [77u8; 32];

fn initialize_pool(
    program: &[u8; 32],
    accounts: &mut InitializePool,
    reward_rate: u64,
) -> Result<(), StakingError> {
    let mut ctx = Context { program_id: *program, accounts: *accounts };
    let done = staking::initialize_pool(&mut ctx, reward_rate);
    assert_eq!(ctx.program_id, *program);
    *accounts = ctx.accounts;
    done
}

fn stake(
    program: &[u8; 32],
    accounts: &mut Stake,
    amount: u64,
    now: i64,
) -> Result<Invocation, StakingError> {
    let mut ctx = Context { program_id: *program, accounts: *accounts };
    let order = staking::stake(&mut ctx, amount, now);
    assert_eq!(ctx.program_id, *program);
    *accounts = ctx.accounts;
    order
}

fn unstake(
    program: &[u8; 32],
    accounts: &mut Unstake,
    amount: u64,
    now: i64,
) -> Result<Invocation, StakingError> {
    let mut ctx = Context { program_id: *program, accounts: *accounts };
    let order = staking::unstake(&mut ctx, amount, now);
    assert_eq!(ctx.program_id, *program);
    *accounts = ctx.accounts;
    order
}

fn claim_rewards(
    program: &[u8; 32],
    accounts: &mut ClaimRewards,
    now: i64,
) -> Result<Invocation, StakingError> {
    let mut ctx = Context { program_id: *program, accounts: *accounts };
    let order = staking::claim_rewards(&mut ctx, now);
    assert_eq!(ctx.program_id, *program);
    *accounts = ctx.accounts;
    order
}

fn pool_key() -> ([u8; 32], u8) {
    find_pool_address(&MINT, &PROGRAM).unwrap()
}

fn stake_key(user: &[u8; 32]) -> [u8; 32] {
    find_user_stake_address(&pool_key().0, user, &PROGRAM).unwrap().0
}

fn vault(amount: u64) -> TokenAccount {
    TokenAccount { key: VAULT, mint: MINT, owner: pool_key().0, amount }
}

fn user_tokens(amount: u64) -> TokenAccount {
    TokenAccount { key: USER_TOKENS, mint: MINT, owner: USER, amount }
}

fn new_pool(reward_rate: u64) -> StakingPool {
    let mut ctx = InitializePool {
        staking_pool_key: pool_key().0,
        staking_pool: None,
        authority: ADMIN,
        vault: vault(0),
        mint: MINT,
    };
    initialize_pool(&PROGRAM, &mut ctx, reward_rate).unwrap();
    ctx.staking_pool.unwrap()
}

fn stake_ctx(pool: StakingPool, record: Option<UserStakeInfo>) -> Stake {
    Stake {
        user: USER,
        user_token_account: user_tokens(1_000),
        vault: vault(pool.total_staked),
        staking_pool_key: pool_key().0,
        staking_pool: pool,
        user_stake_key: stake_key(&USER),
        user_stake_account: record,
        token_program: TOKEN_PROGRAM_ID,
    }
}

fn unstake_ctx(pool: StakingPool, record: UserStakeInfo, in_vault: u64) -> Unstake {
    Unstake {
        user: USER,
        user_token_account: user_tokens(0),
        vault: vault(in_vault),
        staking_pool_key: pool_key().0,
        staking_pool: pool,
        user_stake_key: stake_key(&USER),
        user_stake_account: record,
        token_program: TOKEN_PROGRAM_ID,
    }
}

fn claim_ctx(pool: StakingPool, record: UserStakeInfo, in_vault: u64) -> ClaimRewards {
    ClaimRewards {
        user: USER,
        user_token_account: user_tokens(0),
        vault: vault(in_vault),
        staking_pool_key: pool_key().0,
        staking_pool: pool,
        user_stake_key: stake_key(&USER),
        user_stake_account: record,
        token_program: TOKEN_PROGRAM_ID,
    }
}

fn record(amount: u64, pending_rewards: u64, last_accrual_time: i64) -> UserStakeInfo {
    UserStakeInfo { owner: USER, amount, pending_rewards, last_accrual_time }
}

fn pool_with(reward_rate: u64, total_staked: u64) -> StakingPool {
    StakingPool { total_staked, ..new_pool(reward_rate) }
}

fn transfer_data(amount: u64) -> Vec<u8> {
    let mut data = vec![3u8];
    data.extend_from_slice(&amount.to_le_bytes());
    data
}

#[test]
fn pool_is_set_up_with_nothing_staked() {
    let mut ctx = InitializePool {
        staking_pool_key: pool_key().0,
        staking_pool: None,
        authority: ADMIN,
        vault: vault(0),
        mint: MINT,
    };
    assert_eq!(initialize_pool(&PROGRAM, &mut ctx, 2), Ok(()));
    assert_eq!(
        ctx.staking_pool,
        Some(StakingPool {
            administrator: ADMIN,
            reward_rate: 2,
            vault: VAULT,
            total_staked: 0,
            authority_bump: pool_key().1,
        })
    );
}

#[test]
fn second_initialize_is_refused_and_changes_nothing() {
    let mut ctx = InitializePool {
        staking_pool_key: pool_key().0,
        staking_pool: None,
        authority: ADMIN,
        vault: vault(0),
        mint: MINT,
    };
    initialize_pool(&PROGRAM, &mut ctx, 2).unwrap();
    let first = ctx;
    ctx.authority = OTHER;
    let before = ctx;
    assert_eq!(initialize_pool(&PROGRAM, &mut ctx, 9), Err(StakingError::AlreadyInitialized));
    assert_eq!(ctx, before);
    assert_eq!(ctx.staking_pool, first.staking_pool);
    assert_eq!(ctx.staking_pool.unwrap().reward_rate, 2);
    assert_eq!(ctx.staking_pool.unwrap().administrator, ADMIN);
}

#[test]
fn initialize_at_another_address_is_refused() {
    let mut ctx = InitializePool {
        staking_pool_key: OTHER,
        staking_pool: None,
        authority: ADMIN,
        vault: TokenAccount { key: VAULT, mint: MINT, owner: OTHER, amount: 0 },
        mint: MINT,
    };
    assert_eq!(initialize_pool(&PROGRAM, &mut ctx, 2), Err(StakingError::AddressMismatch));
    assert_eq!(ctx.staking_pool, None);
}

#[test]
fn initialize_with_a_vault_under_other_authority_is_refused() {
    let mut ctx = InitializePool {
        staking_pool_key: pool_key().0,
        staking_pool: None,
        authority: ADMIN,
        vault: TokenAccount { key: VAULT, mint: MINT, owner: ADMIN, amount: 0 },
        mint: MINT,
    };
    assert_eq!(initialize_pool(&PROGRAM, &mut ctx, 2), Err(StakingError::OwnerMismatch));
    assert_eq!(ctx.staking_pool, None);
}

#[test]
fn initialize_with_a_vault_of_another_token_is_refused() {
    let mut ctx = InitializePool {
        staking_pool_key: pool_key().0,
        staking_pool: None,
        authority: ADMIN,
        vault: TokenAccount { key: VAULT, mint: OTHER, owner: pool_key().0, amount: 0 },
        mint: MINT,
    };
    assert_eq!(initialize_pool(&PROGRAM, &mut ctx, 2), Err(StakingError::MintMismatch));
    assert_eq!(ctx.staking_pool, None);
}

#[test]
fn first_stake_writes_the_record() {
    let mut ctx = stake_ctx(new_pool(2), None);
    let order = stake(&PROGRAM, &mut ctx, 100, 1000).unwrap();
    assert_eq!(ctx.user_stake_account, Some(record(100, 0, 1000)));
    assert_eq!(ctx.staking_pool.total_staked, 100);
    assert_eq!(ctx.staking_pool.reward_rate, 2);
    assert_eq!(order.instruction.program_id, TOKEN_PROGRAM_ID);
    assert_eq!(
        order.instruction.accounts,
        vec![
            AccountMeta { pubkey: USER_TOKENS, is_signer: false, is_writable: true },
            AccountMeta { pubkey: VAULT, is_signer: false, is_writable: true },
            AccountMeta { pubkey: USER, is_signer: true, is_writable: false },
        ]
    );
    assert_eq!(order.instruction.data, transfer_data(100));
    assert!(order.signer_seeds.is_empty());
}

#[test]
fn unstake_accrues_on_the_old_principal() {
    let mut ctx = unstake_ctx(pool_with(2, 100), record(100, 0, 1000), 100);
    let order = unstake(&PROGRAM, &mut ctx, 40, 1100).unwrap();
    assert_eq!(ctx.user_stake_account, record(60, 20000, 1100));
    assert_eq!(ctx.staking_pool.total_staked, 60);
    let (pool, bump) = pool_key();
    assert_eq!(
        order.instruction.accounts,
        vec![
            AccountMeta { pubkey: VAULT, is_signer: false, is_writable: true },
            AccountMeta { pubkey: USER_TOKENS, is_signer: false, is_writable: true },
            AccountMeta { pubkey: pool, is_signer: true, is_writable: false },
        ]
    );
    assert_eq!(order.instruction.data, transfer_data(40));
    assert_eq!(order.signer_seeds, vec![b"staking_pool".to_vec(), MINT.to_vec(), vec![bump]]);
}

#[test]
fn unstake_is_signed_for_the_address_that_owns_the_vault() {
    let mut ctx = unstake_ctx(pool_with(2, 100), record(100, 0, 1000), 100);
    let order = unstake(&PROGRAM, &mut ctx, 40, 1100).unwrap();
    let seeds: Vec<&[u8]> = order.signer_seeds.iter().map(|seed| seed.as_slice()).collect();
    let signer =
        Pubkey::create_program_address(&seeds, &Pubkey::new_from_array(PROGRAM)).unwrap();
    assert_eq!(signer.to_bytes(), ctx.vault.owner);
    assert_eq!(signer.to_bytes(), order.instruction.accounts[2].pubkey);
}

#[test]
fn claim_right_after_unstake_pays_what_accrued() {
    let mut ctx = claim_ctx(pool_with(2, 60), record(60, 20000, 1100), 20_060);
    let order = claim_rewards(&PROGRAM, &mut ctx, 1100).unwrap();
    assert_eq!(order.instruction.data, transfer_data(20000));
    assert_eq!(ctx.user_stake_account, record(60, 0, 1100));
    assert_eq!(ctx.staking_pool.total_staked, 60);
    let (pool, bump) = pool_key();
    assert_eq!(order.instruction.accounts[0].pubkey, VAULT);
    assert_eq!(order.instruction.accounts[1].pubkey, USER_TOKENS);
    assert_eq!(order.instruction.accounts[2].pubkey, pool);
    assert_eq!(order.signer_seeds, vec![b"staking_pool".to_vec(), MINT.to_vec(), vec![bump]]);
}

#[test]
fn unstake_of_more_than_staked_is_refused() {
    let mut ctx = unstake_ctx(pool_with(2, 60), record(60, 20000, 1100), 60);
    let before = ctx;
    assert_eq!(
        unstake(&PROGRAM, &mut ctx, 1000, 1200),
        Err(StakingError::InsufficientPrincipal)
    );
    assert_eq!(ctx, before);
}

#[test]
fn claim_with_nothing_staked_and_nothing_pending_is_refused() {
    let mut ctx = claim_ctx(pool_with(2, 0), record(0, 0, 1000), 500);
    let before = ctx;
    assert_eq!(claim_rewards(&PROGRAM, &mut ctx, 5000), Err(StakingError::NothingToClaim));
    assert_eq!(ctx, before);
}

#[test]
fn claim_without_elapsed_time_or_pending_reward_finds_nothing() {
    let mut ctx = claim_ctx(pool_with(2, 60), record(60, 0, 1100), 500);
    assert_eq!(claim_rewards(&PROGRAM, &mut ctx, 1100), Err(StakingError::NothingToClaim));
    let mut free = claim_ctx(pool_with(0, 60), record(60, 0, 1100), 500);
    assert_eq!(claim_rewards(&PROGRAM, &mut free, 9999), Err(StakingError::NothingToClaim));
}

#[test]
fn claim_pays_rate_times_principal_times_time() {
    let mut ctx = claim_ctx(pool_with(7, 13), record(13, 0, 1_000), 1_000_000);
    let order = claim_rewards(&PROGRAM, &mut ctx, 1_000 + 11).unwrap();
    assert_eq!(order.instruction.data, transfer_data(7 * 13 * 11));
    assert_eq!(ctx.user_stake_account, record(13, 0, 1_011));
}

#[test]
fn accrual_in_segments_adds_up() {
    let start = record(13, 5, 1_000);
    let whole = accrue(&start, 7, 1_030).unwrap();
    assert_eq!(whole, 5 + 7 * 13 * 30);
    let halfway = accrue(&start, 7, 1_012).unwrap();
    assert_eq!(halfway, 5 + 7 * 13 * 12);
    let resumed = UserStakeInfo { pending_rewards: halfway, last_accrual_time: 1_012, ..start };
    assert_eq!(accrue(&resumed, 7, 1_030), Ok(whole));
}

#[test]
fn second_stake_accrues_then_adds() {
    let mut ctx = stake_ctx(pool_with(2, 100), Some(record(100, 7, 1000)));
    stake(&PROGRAM, &mut ctx, 50, 1010).unwrap();
    assert_eq!(ctx.user_stake_account, Some(record(150, 7 + 10 * 2 * 100, 1010)));
    assert_eq!(ctx.staking_pool.total_staked, 150);
}

#[test]
fn stake_after_everything_was_withdrawn() {
    let mut ctx = stake_ctx(pool_with(2, 0), Some(record(0, 0, 1000)));
    stake(&PROGRAM, &mut ctx, 5, 2000).unwrap();
    assert_eq!(ctx.user_stake_account, Some(record(5, 0, 2000)));
    assert_eq!(ctx.staking_pool.total_staked, 5);
}

#[test]
fn unstake_of_everything_keeps_the_record() {
    let mut ctx = unstake_ctx(pool_with(2, 100), record(100, 0, 1000), 100);
    unstake(&PROGRAM, &mut ctx, 100, 1001).unwrap();
    assert_eq!(ctx.user_stake_account, record(0, 200, 1001));
    assert_eq!(ctx.staking_pool.total_staked, 0);
}

#[test]
fn zero_amounts_are_refused() {
    let mut staking = stake_ctx(new_pool(2), None);
    assert_eq!(stake(&PROGRAM, &mut staking, 0, 1000), Err(StakingError::InvalidAmount));
    assert_eq!(staking.user_stake_account, None);
    let mut unstaking = unstake_ctx(pool_with(2, 100), record(100, 0, 1000), 100);
    let before = unstaking;
    assert_eq!(unstake(&PROGRAM, &mut unstaking, 0, 1000), Err(StakingError::InvalidAmount));
    assert_eq!(unstaking, before);
}

#[test]
fn another_token_program_is_refused() {
    let mut staking = stake_ctx(new_pool(2), None);
    staking.token_program = OTHER;
    let before = staking;
    assert_eq!(stake(&PROGRAM, &mut staking, 10, 1000), Err(StakingError::IncorrectProgram));
    assert_eq!(staking, before);
    let mut unstaking = unstake_ctx(pool_with(2, 100), record(100, 0, 1000), 100);
    unstaking.token_program = OTHER;
    assert_eq!(unstake(&PROGRAM, &mut unstaking, 10, 1000), Err(StakingError::IncorrectProgram));
    let mut claiming = claim_ctx(pool_with(2, 60), record(60, 20000, 1100), 20_060);
    claiming.token_program = OTHER;
    assert_eq!(claim_rewards(&PROGRAM, &mut claiming, 1100), Err(StakingError::IncorrectProgram));
}

#[test]
fn pool_record_at_another_address_is_refused() {
    let mut staking = stake_ctx(new_pool(2), None);
    staking.staking_pool_key = OTHER;
    staking.vault.owner = OTHER;
    staking.user_stake_key = find_user_stake_address(&OTHER, &USER, &PROGRAM).unwrap().0;
    let before = staking;
    assert_eq!(stake(&PROGRAM, &mut staking, 10, 1000), Err(StakingError::AddressMismatch));
    assert_eq!(staking, before);
}

#[test]
fn pool_record_with_another_bump_is_refused() {
    let mut pool = pool_with(2, 100);
    pool.authority_bump = pool.authority_bump.wrapping_sub(1);
    let mut unstaking = unstake_ctx(pool, record(100, 0, 1000), 100);
    assert_eq!(unstake(&PROGRAM, &mut unstaking, 10, 1000), Err(StakingError::AddressMismatch));
}

#[test]
fn another_programs_pool_is_refused() {
    let mut claiming = claim_ctx(pool_with(2, 60), record(60, 20000, 1100), 20_060);
    let before = claiming;
    assert_eq!(claim_rewards(&OTHER, &mut claiming, 1100), Err(StakingError::AddressMismatch));
    assert_eq!(claiming, before);
}

#[test]
fn stake_record_at_another_address_is_refused() {
    let mut staking = stake_ctx(new_pool(2), None);
    staking.user_stake_key = stake_key(&OTHER);
    assert_eq!(stake(&PROGRAM, &mut staking, 10, 1000), Err(StakingError::AddressMismatch));
    let mut unstaking = unstake_ctx(pool_with(2, 100), record(100, 0, 1000), 100);
    unstaking.user_stake_key = OTHER;
    assert_eq!(unstake(&PROGRAM, &mut unstaking, 10, 1000), Err(StakingError::AddressMismatch));
    let mut claiming = claim_ctx(pool_with(2, 60), record(60, 20000, 1100), 20_060);
    claiming.user_stake_key = VAULT;
    assert_eq!(claim_rewards(&PROGRAM, &mut claiming, 1100), Err(StakingError::AddressMismatch));
}

#[test]
fn a_vault_that_the_pool_does_not_name_is_refused() {
    let mut unstaking = unstake_ctx(pool_with(2, 100), record(100, 0, 1000), 100);
    unstaking.vault.key = OTHER;
    let before = unstaking;
    assert_eq!(unstake(&PROGRAM, &mut unstaking, 10, 1000), Err(StakingError::AddressMismatch));
    assert_eq!(unstaking, before);
}

#[test]
fn a_vault_under_other_authority_is_refused() {
    let mut unstaking = unstake_ctx(pool_with(2, 100), record(100, 0, 1000), 100);
    unstaking.vault.owner = ADMIN;
    assert_eq!(unstake(&PROGRAM, &mut unstaking, 10, 1000), Err(StakingError::OwnerMismatch));
}

#[test]
fn token_account_of_someone_else_is_refused() {
    let mut staking = stake_ctx(new_pool(2), None);
    staking.user_token_account.owner = OTHER;
    assert_eq!(stake(&PROGRAM, &mut staking, 10, 1000), Err(StakingError::OwnerMismatch));
    let mut claiming = claim_ctx(pool_with(2, 60), record(60, 20000, 1100), 20_060);
    claiming.user_token_account.owner = OTHER;
    assert_eq!(claim_rewards(&PROGRAM, &mut claiming, 1100), Err(StakingError::OwnerMismatch));
}

#[test]
fn stake_record_of_someone_else_is_refused() {
    let stolen = UserStakeInfo { owner: OTHER, ..record(100, 0, 1000) };
    let mut unstaking = unstake_ctx(pool_with(2, 100), stolen, 100);
    let before = unstaking;
    assert_eq!(unstake(&PROGRAM, &mut unstaking, 10, 1000), Err(StakingError::OwnerMismatch));
    assert_eq!(unstaking, before);
    let mut staking = stake_ctx(pool_with(2, 100), Some(stolen));
    assert_eq!(stake(&PROGRAM, &mut staking, 10, 1000), Err(StakingError::OwnerMismatch));
}

#[test]
fn token_account_of_another_token_is_refused() {
    let mut staking = stake_ctx(new_pool(2), None);
    staking.user_token_account.mint = OTHER;
    assert_eq!(stake(&PROGRAM, &mut staking, 10, 1000), Err(StakingError::MintMismatch));
    let mut unstaking = unstake_ctx(pool_with(2, 100), record(100, 0, 1000), 100);
    unstaking.user_token_account.mint = OTHER;
    assert_eq!(unstake(&PROGRAM, &mut unstaking, 10, 1000), Err(StakingError::MintMismatch));
}

#[test]
fn stake_of_more_than_the_user_holds_is_refused() {
    let mut staking = stake_ctx(new_pool(2), None);
    let before = staking;
    assert_eq!(stake(&PROGRAM, &mut staking, 1_001, 1000), Err(StakingError::InsufficientFunds));
    assert_eq!(staking, before);
    assert!(stake(&PROGRAM, &mut staking, 1_000, 1000).is_ok());
}

#[test]
fn unstake_of_more_than_the_vault_holds_is_refused() {
    let mut unstaking = unstake_ctx(pool_with(2, 100), record(100, 0, 1000), 39);
    assert_eq!(unstake(&PROGRAM, &mut unstaking, 40, 1100), Err(StakingError::InsufficientFunds));
}

#[test]
fn reward_is_never_paid_out_of_principal() {
    let mut short = claim_ctx(pool_with(2, 60), record(60, 20000, 1100), 20_059);
    let before = short;
    assert_eq!(
        claim_rewards(&PROGRAM, &mut short, 1100),
        Err(StakingError::InsufficientRewardReserve)
    );
    assert_eq!(short, before);
    let mut huge = claim_ctx(pool_with(2, u64::MAX), record(60, 1, 1100), u64::MAX);
    assert_eq!(
        claim_rewards(&PROGRAM, &mut huge, 1100),
        Err(StakingError::InsufficientRewardReserve)
    );
}

#[test]
fn time_running_backwards_is_refused() {
    let mut staking = stake_ctx(pool_with(2, 100), Some(record(100, 0, 1000)));
    let before = staking;
    assert_eq!(stake(&PROGRAM, &mut staking, 10, 999), Err(StakingError::ArithmeticOverflow));
    assert_eq!(staking, before);
    let mut idle = stake_ctx(pool_with(2, 0), Some(record(0, 0, 1000)));
    assert_eq!(stake(&PROGRAM, &mut idle, 10, 999), Err(StakingError::ArithmeticOverflow));
    let mut unstaking = unstake_ctx(pool_with(2, 100), record(100, 0, 1000), 100);
    assert_eq!(unstake(&PROGRAM, &mut unstaking, 10, -1), Err(StakingError::ArithmeticOverflow));
    let mut claiming = claim_ctx(pool_with(2, 60), record(60, 20000, 1100), 20_060);
    assert_eq!(claim_rewards(&PROGRAM, &mut claiming, 1099), Err(StakingError::ArithmeticOverflow));
}

#[test]
fn reward_overflow_is_refused() {
    let mut claiming =
        claim_ctx(pool_with(u64::MAX, 2), record(2, 0, 0), u64::MAX);
    assert_eq!(claim_rewards(&PROGRAM, &mut claiming, 1), Err(StakingError::ArithmeticOverflow));
    let mut pending = claim_ctx(pool_with(1, 1), record(1, u64::MAX, 0), u64::MAX);
    assert_eq!(claim_rewards(&PROGRAM, &mut pending, 1), Err(StakingError::ArithmeticOverflow));
    let mut long = unstake_ctx(pool_with(3, 1 << 40), record(1 << 40, 0, i64::MIN), 1 << 40);
    assert_eq!(unstake(&PROGRAM, &mut long, 1, i64::MAX), Err(StakingError::ArithmeticOverflow));
}

#[test]
fn accrual_at_the_edge_of_overflow() {
    assert_eq!(accrue(&record(1, 0, 0), u64::MAX, 1), Ok(u64::MAX));
    assert_eq!(accrue(&record(1, 1, 0), u64::MAX, 1), Err(StakingError::ArithmeticOverflow));
    assert_eq!(accrue(&record(0, 9, 0), u64::MAX, i64::MAX), Ok(9));
    assert_eq!(accrue(&record(1, 0, i64::MIN), 1, i64::MAX), Ok(u64::MAX));
    assert_eq!(accrue(&record(1, 0, 0), 1, -1), Err(StakingError::ArithmeticOverflow));
    assert_eq!(accrue(&record(3, 4, 10), 5, 10), Ok(4));
}

#[test]
fn total_overflow_is_refused() {
    let mut staking = stake_ctx(pool_with(0, u64::MAX), Some(record(1, 0, 1000)));
    let before = staking;
    assert_eq!(stake(&PROGRAM, &mut staking, 1, 1000), Err(StakingError::ArithmeticOverflow));
    assert_eq!(staking, before);
    let mut full = stake_ctx(pool_with(0, 0), Some(record(u64::MAX, 0, 1000)));
    assert_eq!(stake(&PROGRAM, &mut full, 1, 1000), Err(StakingError::ArithmeticOverflow));
    let mut unstaking = unstake_ctx(pool_with(0, 5), record(10, 0, 1000), 100);
    assert_eq!(unstake(&PROGRAM, &mut unstaking, 6, 1000), Err(StakingError::ArithmeticOverflow));
}

#[test]
fn total_staked_is_the_sum_of_principal() {
    let users = [USER, OTHER, ADMIN];
    let mut pool = new_pool(3);
    let mut records: [Option<UserStakeInfo>; 3] = [None, None, None];
    let moves: [(usize, bool, u64, i64); 9] = [
        (0, true, 100, 10),
        (1, true, 250, 11),
        (0, false, 30, 12),
        (2, true, 7, 13),
        (1, false, 251, 14),
        (1, false, 250, 15),
        (2, true, 0, 16),
        (0, true, 1, 5),
        (0, true, 5, 17),
    ];
    for (who, deposit, amount, now) in moves {
        let user = users[who];
        let tokens = TokenAccount { key: USER_TOKENS, mint: MINT, owner: user, amount: 1_000 };
        let key = stake_key(&user);
        if deposit {
            let mut ctx = Stake {
                user,
                user_token_account: tokens,
                vault: vault(pool.total_staked),
                staking_pool_key: pool_key().0,
                staking_pool: pool,
                user_stake_key: key,
                user_stake_account: records[who],
                token_program: TOKEN_PROGRAM_ID,
            };
            let accepted = stake(&PROGRAM, &mut ctx, amount, now).is_ok();
            assert_eq!(accepted, amount > 0 && now >= 10);
            pool = ctx.staking_pool;
            records[who] = ctx.user_stake_account;
        } else {
            let mut ctx = Unstake {
                user,
                user_token_account: tokens,
                vault: vault(pool.total_staked),
                staking_pool_key: pool_key().0,
                staking_pool: pool,
                user_stake_key: key,
                user_stake_account: records[who].unwrap(),
                token_program: TOKEN_PROGRAM_ID,
            };
            let accepted = unstake(&PROGRAM, &mut ctx, amount, now).is_ok();
            assert_eq!(accepted, amount != 251);
            pool = ctx.staking_pool;
            records[who] = Some(ctx.user_stake_account);
        }
        let sum: u64 = records.iter().map(|r| r.map_or(0, |r| r.amount)).sum();
        assert_eq!(pool.total_staked, sum);
    }
    assert_eq!(pool.total_staked, 75 + 0 + 7);
    assert_eq!(pool.reward_rate, 3);
}

#[test]
fn accrual_time_never_goes_back() {
    let mut pool = new_pool(1);
    let mut current: Option<UserStakeInfo> = None;
    let mut last = i64::MIN;
    for (amount, now) in [(5u64, 100i64), (5, 90), (5, 100), (0, 200), (5, 150), (5, 151)] {
        let mut ctx = stake_ctx(pool, current);
        let _ = stake(&PROGRAM, &mut ctx, amount, now);
        pool = ctx.staking_pool;
        current = ctx.user_stake_account;
        let time = current.unwrap().last_accrual_time;
        assert!(time >= last);
        last = time;
    }
    let mut taking = unstake_ctx(pool, current.unwrap(), pool.total_staked);
    assert!(unstake(&PROGRAM, &mut taking, 1, 150).is_err());
    assert_eq!(taking.user_stake_account.last_accrual_time, 151);
    assert!(unstake(&PROGRAM, &mut taking, 1, 160).is_ok());
    assert_eq!(taking.user_stake_account.last_accrual_time, 160);
    let mut claiming = claim_ctx(taking.staking_pool, taking.user_stake_account, u64::MAX);
    assert!(claim_rewards(&PROGRAM, &mut claiming, 159).is_err());
    assert_eq!(claiming.user_stake_account.last_accrual_time, 160);
    assert!(claim_rewards(&PROGRAM, &mut claiming, 170).is_ok());
    assert_eq!(claiming.user_stake_account.last_accrual_time, 170);
}

#[test]
fn rules_apply_to_the_addresses_that_are_handed_in() {
    let pool = StakingPool {
        administrator: ADMIN,
        reward_rate: 2,
        vault: VAULT,
        total_staked: 0,
        authority_bump: 9,
    };
    let mut ctx = Stake {
        user: USER,
        user_token_account: user_tokens(500),
        vault: TokenAccount { key: VAULT, mint: MINT, owner: [8u8; 32], amount: 0 },
        staking_pool_key: [8u8; 32],
        staking_pool: pool,
        user_stake_key: [9u8; 32],
        user_stake_account: None,
        token_program: TOKEN_PROGRAM_ID,
    };
    let before = ctx;
    assert_eq!(
        ctx.apply(100, 1000, None, Some(([9u8; 32], 1))),
        Err(StakingError::AddressMismatch)
    );
    assert_eq!(
        ctx.apply(100, 1000, Some([8u8; 32]), None),
        Err(StakingError::AddressMismatch)
    );
    assert_eq!(
        ctx.apply(100, 1000, Some([9u8; 32]), Some(([9u8; 32], 1))),
        Err(StakingError::AddressMismatch)
    );
    assert_eq!(ctx, before);
    assert!(ctx.apply(100, 1000, Some([8u8; 32]), Some(([9u8; 32], 1))).is_ok());
    assert_eq!(ctx.user_stake_account, Some(record(100, 0, 1000)));
    assert_eq!(ctx.staking_pool.total_staked, 100);
}
