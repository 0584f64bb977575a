//! The staking operation orchestrator.
//!
//! Four operations over one ledger entry: create the entry, stake, unstake,
//! and claim rewards. Each operation validates the supplied custodial
//! addresses against their derivation, checks that the caller owns the
//! entry, brings the reward balance up to date, applies the balance
//! mutation, and hands back the transfer the external token ledger must
//! perform. On any failure the entry is left exactly as it was.

use vstd::prelude::*;

use crate::account::REWARDS_RATE_PER_SECOND_PER_STAKE;
use crate::account::StakeAccount;
use crate::error::ErrorCode;
use crate::pda;
use crate::pda::bytes32_eq;
use crate::vault::PoolKind;
use crate::vault::TokenTransfer;
use crate::vault::VaultPool;

verus! {

/// The accounts a create-entry request names.
#[derive(Clone, Copy, Debug)]
pub struct InitializeStakeAccount {
    /// The caller-supplied address of the entry to create.
    pub stake_account: [u8; 32],
    /// The owner the new entry will belong to.
    pub stake_authority: [u8; 32],
    /// The token type the entry stakes.
    pub mint: [u8; 32],
}

/// The accounts a stake request names.
#[derive(Clone, Copy, Debug)]
pub struct StakeTokens {
    /// The caller-supplied stake pool address.
    pub stake_vault: [u8; 32],
    /// The caller-supplied ledger entry address.
    pub stake_account: [u8; 32],
    /// The caller: must be the entry's owner.
    pub staker: [u8; 32],
    /// The caller's own token holding, debited by the deposit.
    pub staker_token_account: [u8; 32],
    /// The token type being staked.
    pub mint: [u8; 32],
}

/// The accounts an unstake request names.
#[derive(Clone, Copy, Debug)]
pub struct UnstakeTokens {
    /// The caller-supplied stake pool address.
    pub stake_vault: [u8; 32],
    /// The caller-supplied ledger entry address.
    pub stake_account: [u8; 32],
    /// The holding credited with the withdrawn principal.
    pub to: [u8; 32],
    /// The caller: must be the entry's owner.
    pub authority: [u8; 32],
    /// The token type being unstaked.
    pub mint: [u8; 32],
}

/// The accounts a claim request names.
#[derive(Clone, Copy, Debug)]
pub struct ClaimRewards {
    /// The caller-supplied reward pool address.
    pub reward_vault: [u8; 32],
    /// The caller-supplied ledger entry address.
    pub stake_account: [u8; 32],
    /// The holding credited with the claimed rewards.
    pub to: [u8; 32],
    /// The caller: must be the entry's owner.
    pub authority: [u8; 32],
    /// The token type whose rewards are claimed.
    pub mint: [u8; 32],
}

/// The supplied stake pool address is the derived one for this token type.
pub open spec fn stake_vault_ok(supplied: Seq<u8>, mint: Seq<u8>, program_id: Seq<u8>) -> bool {
    match pda::pda_of(pda::stake_vault_seeds(mint), program_id) {
        Some(derived) => derived.0 == supplied,
        None => false,
    }
}

/// The supplied reward pool address is the derived one for this token type.
pub open spec fn reward_vault_ok(supplied: Seq<u8>, mint: Seq<u8>, program_id: Seq<u8>) -> bool {
    match pda::pda_of(pda::reward_vault_seeds(mint), program_id) {
        Some(derived) => derived.0 == supplied,
        None => false,
    }
}

/// The supplied entry address is the derived one for this token type and
/// owner.
pub open spec fn stake_account_ok(
    supplied: Seq<u8>,
    mint: Seq<u8>,
    owner: Seq<u8>,
    program_id: Seq<u8>,
) -> bool {
    match pda::pda_of(pda::stake_account_seeds(mint, owner), program_id) {
        Some(derived) => derived.0 == supplied,
        None => false,
    }
}

/// The entry after a successful stake of `amount` at `now`: the reward
/// pending for the interval just ended is folded in first, against the
/// pre-deposit principal, then the accrual clock is re-pinned and the
/// principal grows.
pub open spec fn spec_stake(entry: StakeAccount, amount: u64, now: int) -> StakeAccount {
    StakeAccount {
        authority: entry.authority,
        staked_amount: (entry.staked_amount + amount) as u64,
        stake_start_time: now as i64,
        unclaimed_amount: (entry.unclaimed_amount + entry.spec_pending_rewards(now)) as u64,
    }
}

/// The entry after a successful unstake of `amount` at `now`: rewards for
/// the interval just ended are folded in against the pre-withdrawal
/// principal; if any principal remains the clock is re-pinned to `now`,
/// otherwise it returns to the idle sentinel.
pub open spec fn spec_unstake(entry: StakeAccount, amount: u64, now: int) -> StakeAccount {
    let remaining = (entry.staked_amount - amount) as u64;
    StakeAccount {
        authority: entry.authority,
        staked_amount: remaining,
        stake_start_time: if remaining > 0 {
            now as i64
        } else {
            0
        },
        unclaimed_amount: (entry.unclaimed_amount + entry.spec_pending_rewards(now)) as u64,
    }
}

/// The entry after a successful claim: the unclaimed balance returns to
/// zero; principal and accrual clock are untouched.
pub open spec fn spec_claim(entry: StakeAccount) -> StakeAccount {
    StakeAccount { unclaimed_amount: 0, ..entry }
}

/// What a claim at `now` pays out: everything unclaimed, with the reward
/// pending at `now` folded in.
pub open spec fn spec_claim_amount(entry: StakeAccount, now: int) -> int {
    entry.unclaimed_amount + entry.spec_pending_rewards(now)
}

/// A stake of `amount` at `now` stays within the 64-bit range.
pub open spec fn stake_fits(entry: StakeAccount, amount: u64, now: int) -> bool {
    &&& entry.accrual_fits(now)
    &&& entry.staked_amount + amount <= u64::MAX
}

/// Create the ledger entry of `stake_authority` for `mint`: verify the
/// supplied address against the derivation and hand back the initialized
/// entry — no principal, idle clock, nothing unclaimed.
pub fn initialize_stake_account(req: &InitializeStakeAccount, program_id: &[u8; 32]) -> (r: Result<
    StakeAccount,
    ErrorCode,
>)
    ensures
        ({
            let account_ok = stake_account_ok(
                req.stake_account@,
                req.mint@,
                req.stake_authority@,
                program_id@,
            );
            &&& !account_ok ==> r == Err::<StakeAccount, ErrorCode>(
                ErrorCode::InvalidStakeAccountPda,
            )
            &&& account_ok ==> r == Ok::<StakeAccount, ErrorCode>(
                StakeAccount {
                    authority: req.stake_authority,
                    staked_amount: 0,
                    stake_start_time: 0,
                    unclaimed_amount: 0,
                },
            )
            &&& r matches Ok(entry) ==> entry.wf()
        }),
{
    let derived = match pda::derive_stake_account_address(
        &req.mint,
        &req.stake_authority,
        program_id,
    ) {
        Some((address, _bump)) => address,
        None => {
            return Err(ErrorCode::InvalidStakeAccountPda);
        },
    };
    if !bytes32_eq(&derived, &req.stake_account) {
        return Err(ErrorCode::InvalidStakeAccountPda);
    }
    Ok(
        StakeAccount {
            authority: req.stake_authority,
            staked_amount: 0,
            stake_start_time: 0,
            unclaimed_amount: 0,
        },
    )
}

/// Derive the stake pool handle of `mint`: the pool a new token type's
/// staked principal will be custodied in.
pub fn initialize_stake_vault(mint: &[u8; 32], program_id: &[u8; 32]) -> (r: Result<
    VaultPool,
    ErrorCode,
>)
    ensures
        match r {
            Ok(pool) => {
                &&& pool.wf(program_id@)
                &&& pool.kind == PoolKind::Stake
                &&& pool.mint@ == mint@
            },
            Err(e) => {
                &&& e == ErrorCode::InvalidVaultPda
                &&& pda::pda_of(pda::stake_vault_seeds(mint@), program_id@) is None
            },
        },
{
    VaultPool::derive(PoolKind::Stake, mint, program_id)
}

/// Derive the reward pool handle of `mint`: the pool a new token type's
/// reward funds will be custodied in.
pub fn initialize_reward_vault(mint: &[u8; 32], program_id: &[u8; 32]) -> (r: Result<
    VaultPool,
    ErrorCode,
>)
    ensures
        match r {
            Ok(pool) => {
                &&& pool.wf(program_id@)
                &&& pool.kind == PoolKind::Reward
                &&& pool.mint@ == mint@
            },
            Err(e) => {
                &&& e == ErrorCode::InvalidVaultPda
                &&& pda::pda_of(pda::reward_vault_seeds(mint@), program_id@) is None
            },
        },
{
    VaultPool::derive(PoolKind::Reward, mint, program_id)
}

/// Stake `amount` tokens at time `now`: verify both supplied addresses and
/// the caller, fold in the reward pending against the pre-deposit
/// principal, re-pin the accrual clock, grow the principal, and direct the
/// deposit transfer from the caller's holding into the stake pool.
pub fn stake_tokens(
    req: &StakeTokens,
    entry: &mut StakeAccount,
    now: i64,
    amount: u64,
    program_id: &[u8; 32],
) -> (r: Result<TokenTransfer, ErrorCode>)
    requires
        old(entry).wf(),
        old(entry).stake_start_time <= now,
        now > 0,
        amount > 0,
    ensures
        r is Err ==> *final(entry) == *old(entry),
        ({
            let vault_ok = stake_vault_ok(req.stake_vault@, req.mint@, program_id@);
            let account_ok = stake_account_ok(
                req.stake_account@,
                req.mint@,
                req.staker@,
                program_id@,
            );
            let authorized = req.staker@ == old(entry).authority@;
            let fits = stake_fits(*old(entry), amount, now as int);
            &&& !vault_ok ==> r == Err::<TokenTransfer, ErrorCode>(ErrorCode::InvalidVaultPda)
            &&& vault_ok && !account_ok ==> r == Err::<TokenTransfer, ErrorCode>(
                ErrorCode::InvalidStakeAccountPda,
            )
            &&& vault_ok && account_ok && !authorized ==> r == Err::<TokenTransfer, ErrorCode>(
                ErrorCode::Unauthorized,
            )
            &&& vault_ok && account_ok && authorized && !fits ==> r == Err::<
                TokenTransfer,
                ErrorCode,
            >(ErrorCode::ArithmeticOverflow)
            &&& vault_ok && account_ok && authorized && fits ==> {
                &&& *final(entry) == spec_stake(*old(entry), amount, now as int)
                &&& final(entry).wf()
                &&& r matches Ok(t)
                &&& (r matches Ok(t) ==> {
                    &&& t.from@ == req.staker_token_account@
                    &&& t.to@ == req.stake_vault@
                    &&& t.amount == amount
                    &&& t.authority@ == req.staker@
                    &&& t.authority_bump is None
                })
            }
        }),
{
    let pool = match VaultPool::derive(PoolKind::Stake, &req.mint, program_id) {
        Ok(pool) => pool,
        Err(e) => {
            return Err(e);
        },
    };
    if !bytes32_eq(&pool.address, &req.stake_vault) {
        return Err(ErrorCode::InvalidVaultPda);
    }
    let derived = match pda::derive_stake_account_address(&req.mint, &req.staker, program_id) {
        Some((address, _bump)) => address,
        None => {
            return Err(ErrorCode::InvalidStakeAccountPda);
        },
    };
    if !bytes32_eq(&derived, &req.stake_account) {
        return Err(ErrorCode::InvalidStakeAccountPda);
    }
    if !bytes32_eq(&req.staker, &entry.authority) {
        return Err(ErrorCode::Unauthorized);
    }
    let pending = match entry.calculate_pending_rewards(now) {
        Ok(p) => p,
        Err(e) => {
            return Err(e);
        },
    };
    let new_unclaimed = match entry.unclaimed_amount.checked_add(pending) {
        Some(v) => v,
        None => {
            return Err(ErrorCode::ArithmeticOverflow);
        },
    };
    let new_staked = match entry.staked_amount.checked_add(amount) {
        Some(v) => v,
        None => {
            return Err(ErrorCode::ArithmeticOverflow);
        },
    };
    entry.unclaimed_amount = new_unclaimed;
    entry.stake_start_time = now;
    entry.staked_amount = new_staked;
    Ok(
        TokenTransfer {
            from: req.staker_token_account,
            to: req.stake_vault,
            amount,
            authority: req.staker,
            authority_bump: None,
        },
    )
}

/// Unstake `amount` tokens at time `now`: verify both supplied addresses
/// and the caller, refuse more than is staked, fold in the reward pending
/// against the pre-withdrawal principal, shrink the principal (returning
/// the clock to idle when it reaches zero), and direct the self-authorized
/// withdrawal from the stake pool to the caller's holding.
pub fn unstake_tokens(
    req: &UnstakeTokens,
    entry: &mut StakeAccount,
    now: i64,
    amount: u64,
    program_id: &[u8; 32],
) -> (r: Result<TokenTransfer, ErrorCode>)
    requires
        old(entry).wf(),
        old(entry).stake_start_time <= now,
        now > 0,
        amount > 0,
    ensures
        r is Err ==> *final(entry) == *old(entry),
        ({
            let vault_ok = stake_vault_ok(req.stake_vault@, req.mint@, program_id@);
            let account_ok = stake_account_ok(
                req.stake_account@,
                req.mint@,
                req.authority@,
                program_id@,
            );
            let authorized = req.authority@ == old(entry).authority@;
            let sufficient = amount <= old(entry).staked_amount;
            let fits = old(entry).accrual_fits(now as int);
            &&& !vault_ok ==> r == Err::<TokenTransfer, ErrorCode>(ErrorCode::InvalidVaultPda)
            &&& vault_ok && !account_ok ==> r == Err::<TokenTransfer, ErrorCode>(
                ErrorCode::InvalidStakeAccountPda,
            )
            &&& vault_ok && account_ok && !authorized ==> r == Err::<TokenTransfer, ErrorCode>(
                ErrorCode::Unauthorized,
            )
            &&& vault_ok && account_ok && authorized && !sufficient ==> r == Err::<
                TokenTransfer,
                ErrorCode,
            >(ErrorCode::InsufficientFundsStaked)
            &&& vault_ok && account_ok && authorized && sufficient && !fits ==> r == Err::<
                TokenTransfer,
                ErrorCode,
            >(ErrorCode::ArithmeticOverflow)
            &&& vault_ok && account_ok && authorized && sufficient && fits ==> {
                &&& *final(entry) == spec_unstake(*old(entry), amount, now as int)
                &&& final(entry).wf()
                &&& r matches Ok(t)
                &&& (r matches Ok(t) ==> {
                    &&& t.from@ == req.stake_vault@
                    &&& t.to@ == req.to@
                    &&& t.amount == amount
                    &&& t.authority@ == req.stake_vault@
                    &&& (t.authority_bump matches Some(bump) && pda::pda_of(
                        pda::stake_vault_seeds(req.mint@),
                        program_id@,
                    ) == Some((t.authority@, bump)))
                })
            }
        }),
{
    let pool = match VaultPool::derive(PoolKind::Stake, &req.mint, program_id) {
        Ok(pool) => pool,
        Err(e) => {
            return Err(e);
        },
    };
    if !bytes32_eq(&pool.address, &req.stake_vault) {
        return Err(ErrorCode::InvalidVaultPda);
    }
    let derived = match pda::derive_stake_account_address(&req.mint, &req.authority, program_id) {
        Some((address, _bump)) => address,
        None => {
            return Err(ErrorCode::InvalidStakeAccountPda);
        },
    };
    if !bytes32_eq(&derived, &req.stake_account) {
        return Err(ErrorCode::InvalidStakeAccountPda);
    }
    if !bytes32_eq(&req.authority, &entry.authority) {
        return Err(ErrorCode::Unauthorized);
    }
    if amount > entry.staked_amount {
        return Err(ErrorCode::InsufficientFundsStaked);
    }
    let pending = match entry.calculate_pending_rewards(now) {
        Ok(p) => p,
        Err(e) => {
            return Err(e);
        },
    };
    let new_unclaimed = match entry.unclaimed_amount.checked_add(pending) {
        Some(v) => v,
        None => {
            return Err(ErrorCode::ArithmeticOverflow);
        },
    };
    entry.unclaimed_amount = new_unclaimed;
    entry.staked_amount = entry.staked_amount - amount;
    if entry.staked_amount > 0 {
        entry.stake_start_time = now;
    } else {
        entry.stake_start_time = 0;
    }
    Ok(pool.withdraw(&req.to, amount))
}

/// Claim all accrued rewards at time `now`: verify both supplied addresses
/// and the caller, fold in the reward pending at `now`, empty the unclaimed
/// balance, and direct the self-authorized payout of exactly that total
/// from the reward pool to the caller's holding.
pub fn claim_rewards(req: &ClaimRewards, entry: &mut StakeAccount, now: i64, program_id: &[u8; 32]) -> (r:
    Result<TokenTransfer, ErrorCode>)
    requires
        old(entry).wf(),
        old(entry).stake_start_time <= now,
        now >= 0,
    ensures
        r is Err ==> *final(entry) == *old(entry),
        ({
            let vault_ok = reward_vault_ok(req.reward_vault@, req.mint@, program_id@);
            let account_ok = stake_account_ok(
                req.stake_account@,
                req.mint@,
                req.authority@,
                program_id@,
            );
            let authorized = req.authority@ == old(entry).authority@;
            let fits = old(entry).accrual_fits(now as int);
            &&& !vault_ok ==> r == Err::<TokenTransfer, ErrorCode>(ErrorCode::InvalidVaultPda)
            &&& vault_ok && !account_ok ==> r == Err::<TokenTransfer, ErrorCode>(
                ErrorCode::InvalidStakeAccountPda,
            )
            &&& vault_ok && account_ok && !authorized ==> r == Err::<TokenTransfer, ErrorCode>(
                ErrorCode::Unauthorized,
            )
            &&& vault_ok && account_ok && authorized && !fits ==> r == Err::<
                TokenTransfer,
                ErrorCode,
            >(ErrorCode::ArithmeticOverflow)
            &&& vault_ok && account_ok && authorized && fits ==> {
                &&& *final(entry) == spec_claim(*old(entry))
                &&& final(entry).wf()
                &&& r matches Ok(t)
                &&& (r matches Ok(t) ==> {
                    &&& t.from@ == req.reward_vault@
                    &&& t.to@ == req.to@
                    &&& t.amount == spec_claim_amount(*old(entry), now as int)
                    &&& t.authority@ == req.reward_vault@
                    &&& (t.authority_bump matches Some(bump) && pda::pda_of(
                        pda::reward_vault_seeds(req.mint@),
                        program_id@,
                    ) == Some((t.authority@, bump)))
                })
            }
        }),
{
    let pool = match VaultPool::derive(PoolKind::Reward, &req.mint, program_id) {
        Ok(pool) => pool,
        Err(e) => {
            return Err(e);
        },
    };
    if !bytes32_eq(&pool.address, &req.reward_vault) {
        return Err(ErrorCode::InvalidVaultPda);
    }
    let derived = match pda::derive_stake_account_address(&req.mint, &req.authority, program_id) {
        Some((address, _bump)) => address,
        None => {
            return Err(ErrorCode::InvalidStakeAccountPda);
        },
    };
    if !bytes32_eq(&derived, &req.stake_account) {
        return Err(ErrorCode::InvalidStakeAccountPda);
    }
    if !bytes32_eq(&req.authority, &entry.authority) {
        return Err(ErrorCode::Unauthorized);
    }
    match entry.accrue(now) {
        Ok(()) => (),
        Err(e) => {
            return Err(e);
        },
    }
    let amount = entry.unclaimed_amount;
    entry.unclaimed_amount = 0;
    Ok(pool.withdraw(&req.to, amount))
}

/// Staking into an idle entry and immediately unstaking the same amount is
/// a round trip: the entry returns to exactly its former state — no stake,
/// the idle sentinel on the clock, and the unclaimed balance untouched.
pub proof fn lemma_stake_unstake_round_trip(entry: StakeAccount, amount: u64, now: i64)
    requires
        entry.wf(),
        entry.staked_amount == 0,
        amount > 0,
        now > 0,
    ensures
        spec_unstake(spec_stake(entry, amount, now as int), amount, now as int) == entry,
{
    let staked = spec_stake(entry, amount, now as int);
    assert(((now as int) - (now as int)) * (REWARDS_RATE_PER_SECOND_PER_STAKE as int) * (
    staked.staked_amount as int) == 0) by (nonlinear_arith);
    assert(staked.spec_pending_rewards(now as int) == 0);
    assert(spec_unstake(staked, amount, now as int) == entry);
}

} // verus!
