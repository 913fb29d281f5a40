use staking_contract::codec::{
    read_address, read_i64, read_u64, same_address, write_address, write_i64, write_u64,
};
use staking_contract::error::StakingError;
use staking_contract::instruction::StakingInstruction;
use staking_contract::state::{StakingPool, UserStakeInfo, POOL_LEN, USER_STAKE_LEN};

fn sample_pool() -> StakingPool {
    StakingPool {
        administrator: [7u8; 32],
        reward_rate: 2,
        vault: [9u8; 32],
        total_staked: 0x0102_0304_0506_0708,
        authority_bump: 254,
    }
}

fn sample_stake() -> UserStakeInfo {
    UserStakeInfo { owner: [3u8; 32], amount: 100, pending_rewards: 20000, last_accrual_time: -5 }
}

#[test]
fn u64_is_written_least_significant_byte_first() {
    let mut out = vec![0xaa];
    write_u64(&mut out, 0x0102_0304_0506_0708);
    assert_eq!(out, vec![0xaa, 8, 7, 6, 5, 4, 3, 2, 1]);
    assert_eq!(read_u64(&out, 1), 0x0102_0304_0506_0708);
}

#[test]
fn u64_extremes_round_trip() {
    for x in [0u64, 1, 255, 256, u64::MAX - 1, u64::MAX] {
        let mut out = Vec::new();
        write_u64(&mut out, x);
        assert_eq!(out, x.to_le_bytes().to_vec());
        assert_eq!(read_u64(&out, 0), x);
    }
}

#[test]
fn i64_is_written_in_twos_complement() {
    let mut out = Vec::new();
    write_i64(&mut out, -2);
    assert_eq!(out, vec![0xfe, 0xff, 0xff, 0xff, 0xff, 0xff, 0xff, 0xff]);
    assert_eq!(read_i64(&out, 0), -2);
}

#[test]
fn i64_extremes_round_trip() {
    for x in [i64::MIN, i64::MIN + 1, -1, 0, 1, 1000, i64::MAX] {
        let mut out = Vec::new();
        write_i64(&mut out, x);
        assert_eq!(out, x.to_le_bytes().to_vec());
        assert_eq!(read_i64(&out, 0), x);
    }
}

#[test]
fn address_is_read_where_it_was_written() {
    let mut address = [0u8; 32];
    for (i, byte) in address.iter_mut().enumerate() {
        *byte = i as u8 + 1;
    }
    let mut out = vec![1, 2, 3];
    write_address(&mut out, &address);
    out.push(99);
    assert_eq!(out.len(), 36);
    assert_eq!(read_address(&out, 3), address);
    assert!(same_address(&read_address(&out, 3), &address));
    assert!(!same_address(&read_address(&out, 2), &address));
}

#[test]
fn addresses_that_differ_in_the_last_byte_differ() {
    let a = [5u8; 32];
    let mut b = [5u8; 32];
    assert!(same_address(&a, &b));
    b[31] = 6;
    assert!(!same_address(&a, &b));
}

#[test]
fn pool_record_round_trip() {
    let pool = sample_pool();
    let bytes = pool.encode();
    assert_eq!(bytes.len(), POOL_LEN);
    assert_eq!(StakingPool::decode(&bytes), Some(pool));
}

#[test]
fn pool_record_layout() {
    let bytes = sample_pool().encode();
    let mut expected = vec![7u8; 32];
    expected.extend_from_slice(&[2, 0, 0, 0, 0, 0, 0, 0]);
    expected.extend_from_slice(&[9u8; 32]);
    expected.extend_from_slice(&[8, 7, 6, 5, 4, 3, 2, 1]);
    expected.push(254);
    assert_eq!(bytes, expected);
}

#[test]
fn pool_record_is_laid_out_as_borsh_does() {
    let pool = sample_pool();
    let tuple = (
        pool.administrator,
        pool.reward_rate,
        pool.vault,
        pool.total_staked,
        pool.authority_bump,
    );
    assert_eq!(pool.encode(), borsh::to_vec(&tuple).unwrap());
}

#[test]
fn pool_record_of_wrong_length_is_refused() {
    let mut bytes = sample_pool().encode();
    bytes.push(0);
    assert_eq!(StakingPool::decode(&bytes), None);
    bytes.truncate(POOL_LEN - 1);
    assert_eq!(StakingPool::decode(&bytes), None);
    assert_eq!(StakingPool::decode(&[]), None);
}

#[test]
fn user_stake_record_round_trip() {
    let stake = sample_stake();
    let bytes = stake.encode();
    assert_eq!(bytes.len(), USER_STAKE_LEN);
    assert_eq!(UserStakeInfo::decode(&bytes), Some(stake));
}

#[test]
fn user_stake_record_is_laid_out_as_borsh_does() {
    let stake = sample_stake();
    let tuple = (stake.owner, stake.amount, stake.pending_rewards, stake.last_accrual_time);
    assert_eq!(stake.encode(), borsh::to_vec(&tuple).unwrap());
}

#[test]
fn user_stake_record_of_wrong_length_is_refused() {
    let mut bytes = sample_stake().encode();
    bytes.push(0);
    assert_eq!(UserStakeInfo::decode(&bytes), None);
    bytes.truncate(USER_STAKE_LEN - 1);
    assert_eq!(UserStakeInfo::decode(&bytes), None);
}

#[test]
fn instructions_round_trip() {
    let all = [
        StakingInstruction::InitializePool { reward_rate: 5 },
        StakingInstruction::Stake { amount: 100 },
        StakingInstruction::Unstake { amount: u64::MAX },
        StakingInstruction::ClaimRewards,
    ];
    for instruction in all {
        assert_eq!(StakingInstruction::decode(&instruction.encode()), Ok(instruction));
    }
}

#[test]
fn instruction_layout() {
    assert_eq!(
        StakingInstruction::InitializePool { reward_rate: 5 }.encode(),
        vec![0, 5, 0, 0, 0, 0, 0, 0, 0]
    );
    assert_eq!(StakingInstruction::Stake { amount: 256 }.encode(), vec![1, 0, 1, 0, 0, 0, 0, 0, 0]);
    assert_eq!(
        StakingInstruction::Unstake { amount: 40 }.encode(),
        vec![2, 40, 0, 0, 0, 0, 0, 0, 0]
    );
    assert_eq!(StakingInstruction::ClaimRewards.encode(), vec![3]);
}

#[test]
fn malformed_instructions_are_refused() {
    let refused = Err(StakingError::InvalidInstruction);
    assert_eq!(StakingInstruction::decode(&[]), refused);
    assert_eq!(StakingInstruction::decode(&[4]), refused);
    assert_eq!(StakingInstruction::decode(&[1]), refused);
    assert_eq!(StakingInstruction::decode(&[1, 0, 0, 0, 0, 0, 0, 0]), refused);
    assert_eq!(StakingInstruction::decode(&[1, 0, 0, 0, 0, 0, 0, 0, 0, 0]), refused);
    assert_eq!(StakingInstruction::decode(&[3, 0]), refused);
    assert_eq!(StakingInstruction::decode(&[255, 0, 0, 0, 0, 0, 0, 0, 0]), refused);
}
