use anchor_token_staking::account::StakeAccount;
use anchor_token_staking::error::ErrorCode;
use anchor_token_staking::ops::claim_rewards;
use anchor_token_staking::ops::initialize_reward_vault;
use anchor_token_staking::ops::initialize_stake_account;
use anchor_token_staking::ops::initialize_stake_vault;
use anchor_token_staking::ops::stake_tokens;
use anchor_token_staking::ops::unstake_tokens;
use anchor_token_staking::ops::ClaimRewards;
use anchor_token_staking::ops::InitializeStakeAccount;
use anchor_token_staking::ops::StakeTokens;
use anchor_token_staking::ops::UnstakeTokens;
use anchor_token_staking::vault::PoolKind;

use anchor_lang::solana_program::pubkey::Pubkey;

const PROGRAM_ID: [u8; 32] = [7u8; 32];
const MINT: [u8; 32] = [1u8; 32];
const OWNER: [u8; 32] = [2u8; 32];
const OWNER_TOKEN_ACCOUNT: [u8; 32] = [3u8; 32];

fn stake_vault_address() -> ([u8; 32], u8) {
    let pool = initialize_stake_vault(&MINT, &PROGRAM_ID).unwrap();
    (pool.address, pool.bump)
}

fn reward_vault_address() -> ([u8; 32], u8) {
    let pool = initialize_reward_vault(&MINT, &PROGRAM_ID).unwrap();
    (pool.address, pool.bump)
}

fn entry_address() -> [u8; 32] {
    let (pda, _bump) = Pubkey::find_program_address(
        &[b"stake-account", &MINT, &OWNER],
        &Pubkey::new_from_array(PROGRAM_ID),
    );
    pda.to_bytes()
}

fn fresh_entry() -> StakeAccount {
    let req = InitializeStakeAccount {
        stake_account: entry_address(),
        stake_authority: OWNER,
        mint: MINT,
    };
    initialize_stake_account(&req, &PROGRAM_ID).unwrap()
}

fn stake_request() -> StakeTokens {
    StakeTokens {
        stake_vault: stake_vault_address().0,
        stake_account: entry_address(),
        staker: OWNER,
        staker_token_account: OWNER_TOKEN_ACCOUNT,
        mint: MINT,
    }
}

fn unstake_request(to: [u8; 32]) -> UnstakeTokens {
    UnstakeTokens {
        stake_vault: stake_vault_address().0,
        stake_account: entry_address(),
        to,
        authority: OWNER,
        mint: MINT,
    }
}

fn claim_request(to: [u8; 32]) -> ClaimRewards {
    ClaimRewards {
        reward_vault: reward_vault_address().0,
        stake_account: entry_address(),
        to,
        authority: OWNER,
        mint: MINT,
    }
}

#[test]
fn stake_vault_derivation_matches_runtime() {
    let (pda, bump) = Pubkey::find_program_address(
        &[b"stake-vault", &MINT],
        &Pubkey::new_from_array(PROGRAM_ID),
    );
    let pool = initialize_stake_vault(&MINT, &PROGRAM_ID).unwrap();
    assert_eq!(pool.address, pda.to_bytes());
    assert_eq!(pool.bump, bump);
    assert_eq!(pool.kind, PoolKind::Stake);
    assert_eq!(pool.mint, MINT);
}

#[test]
fn reward_vault_derivation_matches_runtime() {
    let (pda, bump) = Pubkey::find_program_address(
        &[b"reward-vault", &MINT],
        &Pubkey::new_from_array(PROGRAM_ID),
    );
    let pool = initialize_reward_vault(&MINT, &PROGRAM_ID).unwrap();
    assert_eq!(pool.address, pda.to_bytes());
    assert_eq!(pool.bump, bump);
    assert_eq!(pool.kind, PoolKind::Reward);
}

#[test]
fn stake_account_derivation_matches_runtime() {
    // The derived entry address differs from both pool addresses and from
    // the raw seeds: distinct namespaces cannot collide.
    let entry = entry_address();
    assert_ne!(entry, stake_vault_address().0);
    assert_ne!(entry, reward_vault_address().0);
    assert_ne!(entry, OWNER);
    assert_ne!(entry, MINT);
}

#[test]
fn initialize_stake_account_sets_defaults() {
    let entry = fresh_entry();
    assert_eq!(entry.authority, OWNER);
    assert_eq!(entry.staked_amount, 0);
    assert_eq!(entry.stake_start_time, 0);
    assert_eq!(entry.unclaimed_amount, 0);
}

#[test]
fn initialize_stake_account_rejects_wrong_address() {
    let req = InitializeStakeAccount {
        stake_account: [9u8; 32],
        stake_authority: OWNER,
        mint: MINT,
    };
    assert_eq!(
        initialize_stake_account(&req, &PROGRAM_ID),
        Err(ErrorCode::InvalidStakeAccountPda)
    );
}

#[test]
fn idle_entry_accrues_nothing() {
    let mut entry = StakeAccount {
        authority: OWNER,
        staked_amount: 0,
        stake_start_time: 0,
        unclaimed_amount: 42,
    };
    assert_eq!(entry.calculate_pending_rewards(1_000_000), Ok(0));
    assert_eq!(entry.accrue(1_000_000), Ok(()));
    assert_eq!(entry.unclaimed_amount, 42);
    assert_eq!(entry.staked_amount, 0);
    assert_eq!(entry.stake_start_time, 0);
}

#[test]
fn split_accrual_equals_single_accrual() {
    // Accrue from t=10 to t=20, re-pin the clock, accrue to t=30: the
    // unclaimed total matches one accrual straight from t=10 to t=30.
    let mut split = StakeAccount {
        authority: OWNER,
        staked_amount: 5,
        stake_start_time: 10,
        unclaimed_amount: 7,
    };
    assert_eq!(split.accrue(20), Ok(()));
    split.stake_start_time = 20;
    assert_eq!(split.accrue(30), Ok(()));

    let mut single = StakeAccount {
        authority: OWNER,
        staked_amount: 5,
        stake_start_time: 10,
        unclaimed_amount: 7,
    };
    assert_eq!(single.accrue(30), Ok(()));
    assert_eq!(split.unclaimed_amount, single.unclaimed_amount);
    assert_eq!(split.unclaimed_amount, 7 + 20 * 5);
}

#[test]
fn accrual_overflow_fails_closed() {
    let mut entry = StakeAccount {
        authority: OWNER,
        staked_amount: u64::MAX,
        stake_start_time: 1,
        unclaimed_amount: 5,
    };
    assert_eq!(entry.accrue(3), Err(ErrorCode::ArithmeticOverflow));
    assert_eq!(entry.unclaimed_amount, 5);
    assert_eq!(entry.staked_amount, u64::MAX);
    assert_eq!(entry.stake_start_time, 1);
}

#[test]
fn unclaimed_overflow_fails_closed() {
    let mut entry = StakeAccount {
        authority: OWNER,
        staked_amount: 2,
        stake_start_time: 1,
        unclaimed_amount: u64::MAX,
    };
    assert_eq!(entry.accrue(2), Err(ErrorCode::ArithmeticOverflow));
    assert_eq!(entry.unclaimed_amount, u64::MAX);
}

#[test]
fn stake_then_unstake_round_trip() {
    let mut entry = fresh_entry();
    let deposit = stake_tokens(&stake_request(), &mut entry, 100, 50, &PROGRAM_ID).unwrap();
    assert_eq!(deposit.from, OWNER_TOKEN_ACCOUNT);
    assert_eq!(deposit.to, stake_vault_address().0);
    assert_eq!(deposit.amount, 50);
    assert_eq!(deposit.authority, OWNER);
    assert_eq!(deposit.authority_bump, None);
    assert_eq!(entry.staked_amount, 50);
    assert_eq!(entry.stake_start_time, 100);
    assert_eq!(entry.unclaimed_amount, 0);

    let withdrawal =
        unstake_tokens(&unstake_request(OWNER_TOKEN_ACCOUNT), &mut entry, 100, 50, &PROGRAM_ID)
            .unwrap();
    let (vault, bump) = stake_vault_address();
    assert_eq!(withdrawal.from, vault);
    assert_eq!(withdrawal.to, OWNER_TOKEN_ACCOUNT);
    assert_eq!(withdrawal.amount, 50);
    assert_eq!(withdrawal.authority, vault);
    assert_eq!(withdrawal.authority_bump, Some(bump));
    assert_eq!(entry.staked_amount, 0);
    assert_eq!(entry.stake_start_time, 0);
    assert_eq!(entry.unclaimed_amount, 0);
}

#[test]
fn unstake_by_stranger_is_unauthorized() {
    let mut entry = fresh_entry();
    stake_tokens(&stake_request(), &mut entry, 100, 60, &PROGRAM_ID).unwrap();
    let before = entry;

    let mut req = unstake_request(OWNER_TOKEN_ACCOUNT);
    req.authority = [8u8; 32];
    // The stranger supplies the entry address derived for itself; it does
    // not match the owner's entry address.
    assert_eq!(
        unstake_tokens(&req, &mut entry, 110, 10, &PROGRAM_ID),
        Err(ErrorCode::InvalidStakeAccountPda)
    );
    // Even with the owner's entry address, the identity check refuses.
    let (pda, _) = Pubkey::find_program_address(
        &[b"stake-account", &MINT, &[8u8; 32]],
        &Pubkey::new_from_array(PROGRAM_ID),
    );
    req.stake_account = pda.to_bytes();
    let mut stranger_entry = entry;
    stranger_entry.authority = OWNER;
    assert_eq!(
        unstake_tokens(&req, &mut stranger_entry, 110, 10, &PROGRAM_ID),
        Err(ErrorCode::Unauthorized)
    );
    assert_eq!(entry, before);
}

#[test]
fn claim_by_stranger_is_unauthorized() {
    let mut entry = fresh_entry();
    stake_tokens(&stake_request(), &mut entry, 100, 60, &PROGRAM_ID).unwrap();
    let before = entry;

    let stranger = [8u8; 32];
    let (pda, _) = Pubkey::find_program_address(
        &[b"stake-account", &MINT, &stranger],
        &Pubkey::new_from_array(PROGRAM_ID),
    );
    let req = ClaimRewards {
        reward_vault: reward_vault_address().0,
        stake_account: pda.to_bytes(),
        to: OWNER_TOKEN_ACCOUNT,
        authority: stranger,
        mint: MINT,
    };
    assert_eq!(
        claim_rewards(&req, &mut entry, 110, &PROGRAM_ID),
        Err(ErrorCode::Unauthorized)
    );
    assert_eq!(entry, before);
}

#[test]
fn insufficient_stake_is_rejected() {
    let mut entry = fresh_entry();
    stake_tokens(&stake_request(), &mut entry, 100, 60, &PROGRAM_ID).unwrap();
    let before = entry;
    assert_eq!(
        unstake_tokens(&unstake_request(OWNER_TOKEN_ACCOUNT), &mut entry, 110, 61, &PROGRAM_ID),
        Err(ErrorCode::InsufficientFundsStaked)
    );
    assert_eq!(entry, before);
}

#[test]
fn accrual_example_with_unit_rate() {
    // Rate is one unit per second per staked unit. Stake 100; ten seconds
    // later the pending reward is 10 * 1 * 100 = 1000. Unstake 40 then:
    // the 1000 is flushed, principal drops to 60, the clock re-pins. Ten
    // more seconds accrue 10 * 1 * 60 = 600, and the claim pays exactly
    // 1600, emptying the unclaimed balance.
    let t0 = 100;
    let mut entry = fresh_entry();
    stake_tokens(&stake_request(), &mut entry, t0, 100, &PROGRAM_ID).unwrap();
    assert_eq!(entry.staked_amount, 100);
    assert_eq!(entry.stake_start_time, t0);
    assert_eq!(entry.unclaimed_amount, 0);

    assert_eq!(entry.calculate_pending_rewards(t0 + 10), Ok(1000));

    unstake_tokens(&unstake_request(OWNER_TOKEN_ACCOUNT), &mut entry, t0 + 10, 40, &PROGRAM_ID)
        .unwrap();
    assert_eq!(entry.unclaimed_amount, 1000);
    assert_eq!(entry.staked_amount, 60);
    assert_eq!(entry.stake_start_time, t0 + 10);

    let payout = claim_rewards(
        &claim_request(OWNER_TOKEN_ACCOUNT),
        &mut entry,
        t0 + 20,
        &PROGRAM_ID,
    )
    .unwrap();
    assert_eq!(payout.amount, 1600);
    let (vault, bump) = reward_vault_address();
    assert_eq!(payout.from, vault);
    assert_eq!(payout.authority, vault);
    assert_eq!(payout.authority_bump, Some(bump));
    assert_eq!(payout.to, OWNER_TOKEN_ACCOUNT);
    assert_eq!(entry.unclaimed_amount, 0);
    assert_eq!(entry.staked_amount, 60);
    assert_eq!(entry.stake_start_time, t0 + 10);
}

#[test]
fn stake_rejects_wrong_vault_address() {
    let mut entry = fresh_entry();
    let mut req = stake_request();
    req.stake_vault = [9u8; 32];
    assert_eq!(
        stake_tokens(&req, &mut entry, 100, 10, &PROGRAM_ID),
        Err(ErrorCode::InvalidVaultPda)
    );
    assert_eq!(entry, fresh_entry());
}

#[test]
fn unstake_rejects_wrong_vault_address() {
    let mut entry = fresh_entry();
    stake_tokens(&stake_request(), &mut entry, 100, 10, &PROGRAM_ID).unwrap();
    let mut req = unstake_request(OWNER_TOKEN_ACCOUNT);
    req.stake_vault = reward_vault_address().0;
    assert_eq!(
        unstake_tokens(&req, &mut entry, 110, 5, &PROGRAM_ID),
        Err(ErrorCode::InvalidVaultPda)
    );
}

#[test]
fn claim_rejects_wrong_vault_address() {
    let mut entry = fresh_entry();
    let mut req = claim_request(OWNER_TOKEN_ACCOUNT);
    req.reward_vault = stake_vault_address().0;
    assert_eq!(
        claim_rewards(&req, &mut entry, 100, &PROGRAM_ID),
        Err(ErrorCode::InvalidVaultPda)
    );
}

#[test]
fn stake_rejects_wrong_entry_address() {
    let mut entry = fresh_entry();
    let mut req = stake_request();
    req.stake_account = [9u8; 32];
    assert_eq!(
        stake_tokens(&req, &mut entry, 100, 10, &PROGRAM_ID),
        Err(ErrorCode::InvalidStakeAccountPda)
    );
}

#[test]
fn stake_overflow_fails_closed() {
    let mut entry = fresh_entry();
    stake_tokens(&stake_request(), &mut entry, 100, u64::MAX, &PROGRAM_ID).unwrap();
    let before = entry;
    assert_eq!(
        stake_tokens(&stake_request(), &mut entry, 100, 1, &PROGRAM_ID),
        Err(ErrorCode::ArithmeticOverflow)
    );
    assert_eq!(entry, before);
}

#[test]
fn claim_of_nothing_pays_nothing() {
    let mut entry = fresh_entry();
    let payout = claim_rewards(
        &claim_request(OWNER_TOKEN_ACCOUNT),
        &mut entry,
        100,
        &PROGRAM_ID,
    )
    .unwrap();
    assert_eq!(payout.amount, 0);
    assert_eq!(entry.unclaimed_amount, 0);
}
