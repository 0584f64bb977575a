//! The per-owner ledger entry and the reward-accrual engine.

use vstd::prelude::*;

use crate::error::ErrorCode;

verus! {

/// Reward units granted per second for each staked token unit: the fixed
/// protocol rate.
pub const REWARDS_RATE_PER_SECOND_PER_STAKE: u64 = 1;

/// One ledger entry per owner and token type: the staked principal, the
/// rewards accrued but not yet claimed, and the timestamp at which the
/// current principal began accruing. A start time of `0` is the sentinel
/// for "not currently staking".
#[derive(Clone, Copy, Debug, PartialEq, Eq)]
pub struct StakeAccount {
    /// The sole identity allowed to move this entry's funds.
    pub authority: [u8; 32],
    /// Principal currently under stake.
    pub staked_amount: u64,
    /// When the current principal began accruing; `0` while idle.
    pub stake_start_time: i64,
    /// Rewards accrued and not yet claimed.
    pub unclaimed_amount: u64,
}

impl StakeAccount {
    /// Sentinel consistency: the entry stakes nothing exactly when its
    /// accrual clock is unset, and the clock is never a negative timestamp.
    pub open spec fn wf(self) -> bool {
        &&& self.staked_amount == 0 <==> self.stake_start_time == 0
        &&& self.stake_start_time >= 0
    }

    /// Reward owed for the time elapsed since accrual began, as an
    /// unbounded integer. An idle entry (start time `0`) accrues nothing,
    /// whatever the current time.
    pub open spec fn spec_pending_rewards(self, now: int) -> int {
        if self.stake_start_time == 0 {
            0
        } else {
            (now - self.stake_start_time) * (REWARDS_RATE_PER_SECOND_PER_STAKE as int)
                * (self.staked_amount as int)
        }
    }

    /// The pending reward can be computed without exceeding the 64-bit
    /// range, including the per-second rate step.
    pub open spec fn pending_fits(self, now: int) -> bool {
        &&& REWARDS_RATE_PER_SECOND_PER_STAKE * self.staked_amount <= u64::MAX
        &&& self.spec_pending_rewards(now) <= u64::MAX
    }

    /// The pending reward and the updated unclaimed balance both fit in the
    /// 64-bit range.
    pub open spec fn accrual_fits(self, now: int) -> bool {
        &&& self.pending_fits(now)
        &&& self.unclaimed_amount + self.spec_pending_rewards(now) <= u64::MAX
    }

    /// Reward accrued between `stake_start_time` and `current_time` for the
    /// current principal; `0` for an idle entry. Fails closed instead of
    /// wrapping when the product exceeds the 64-bit range.
    pub fn calculate_pending_rewards(&self, current_time: i64) -> (r: Result<u64, ErrorCode>)
        requires
            self.wf(),
            self.stake_start_time <= current_time,
        ensures
            match r {
                Ok(pending) => self.pending_fits(current_time as int) && pending
                    == self.spec_pending_rewards(current_time as int),
                Err(e) => e == ErrorCode::ArithmeticOverflow && !self.pending_fits(
                    current_time as int,
                ),
            },
    {
        if self.stake_start_time == 0 {
            return Ok(0);
        }
        let elapsed: u64 = (current_time - self.stake_start_time) as u64;
        let per_second = match REWARDS_RATE_PER_SECOND_PER_STAKE.checked_mul(self.staked_amount) {
            Some(v) => v,
            None => {
                return Err(ErrorCode::ArithmeticOverflow);
            },
        };
        match elapsed.checked_mul(per_second) {
            Some(pending) => {
                proof {
                    assert((current_time - self.stake_start_time) * (
                    REWARDS_RATE_PER_SECOND_PER_STAKE as int) * (self.staked_amount as int)
                        == (elapsed as int) * ((REWARDS_RATE_PER_SECOND_PER_STAKE as int) * (
                    self.staked_amount as int))) by (nonlinear_arith)
                        requires
                            elapsed == current_time - self.stake_start_time,
                    ;
                }
                Ok(pending)
            },
            None => {
                proof {
                    assert((current_time - self.stake_start_time) * (
                    REWARDS_RATE_PER_SECOND_PER_STAKE as int) * (self.staked_amount as int)
                        == (elapsed as int) * ((REWARDS_RATE_PER_SECOND_PER_STAKE as int) * (
                    self.staked_amount as int))) by (nonlinear_arith)
                        requires
                            elapsed == current_time - self.stake_start_time,
                    ;
                }
                Err(ErrorCode::ArithmeticOverflow)
            },
        }
    }

    /// The accrual engine: fold the reward pending at `current_time` into
    /// the unclaimed balance. The accrual clock is deliberately left alone;
    /// re-pinning it is the caller's job, after any principal change. On
    /// overflow the entry is unchanged and the operation fails closed.
    pub fn accrue(&mut self, current_time: i64) -> (r: Result<(), ErrorCode>)
        requires
            old(self).wf(),
            old(self).stake_start_time <= current_time,
        ensures
            match r {
                Ok(()) => {
                    &&& old(self).accrual_fits(current_time as int)
                    &&& final(self).unclaimed_amount == old(self).unclaimed_amount + old(
                        self,
                    ).spec_pending_rewards(current_time as int)
                    &&& final(self).authority == old(self).authority
                    &&& final(self).staked_amount == old(self).staked_amount
                    &&& final(self).stake_start_time == old(self).stake_start_time
                },
                Err(e) => {
                    &&& e == ErrorCode::ArithmeticOverflow
                    &&& !old(self).accrual_fits(current_time as int)
                    &&& *final(self) == *old(self)
                },
            },
    {
        let pending = match self.calculate_pending_rewards(current_time) {
            Ok(p) => p,
            Err(e) => {
                return Err(e);
            },
        };
        match self.unclaimed_amount.checked_add(pending) {
            Some(total) => {
                self.unclaimed_amount = total;
                Ok(())
            },
            None => Err(ErrorCode::ArithmeticOverflow),
        }
    }
}

/// An idle entry accrues nothing: with the accrual clock unset, the pending
/// reward is zero for every current time.
pub proof fn lemma_idle_accrual_is_zero(entry: StakeAccount, now: int)
    requires
        entry.stake_start_time == 0,
    ensures
        entry.spec_pending_rewards(now) == 0,
{
}

/// Accrual is additive over time: accruing up to `t1` and then, with the
/// accrual clock re-pinned to `t1`, up to `t2`, leaves the same unclaimed
/// total as a single accrual up to `t2`. Splitting the interval neither
/// loses nor double-counts reward.
pub proof fn lemma_accrual_additive(entry: StakeAccount, t1: i64, t2: i64)
    requires
        entry.wf(),
        entry.staked_amount > 0,
        entry.stake_start_time <= t1 <= t2,
    ensures
        entry.unclaimed_amount + entry.spec_pending_rewards(t1 as int) + (StakeAccount {
            stake_start_time: t1,
            ..entry
        }).spec_pending_rewards(t2 as int) == entry.unclaimed_amount + entry.spec_pending_rewards(
            t2 as int,
        ),
{
    let start = entry.stake_start_time as int;
    let per_unit = (REWARDS_RATE_PER_SECOND_PER_STAKE as int) * (entry.staked_amount as int);
    assert((t1 - start) * (REWARDS_RATE_PER_SECOND_PER_STAKE as int) * (entry.staked_amount as int)
        + (t2 - t1) * (REWARDS_RATE_PER_SECOND_PER_STAKE as int) * (entry.staked_amount as int) == (
    t2 - start) * (REWARDS_RATE_PER_SECOND_PER_STAKE as int) * (entry.staked_amount as int))
        by (nonlinear_arith);
}

} // verus!
