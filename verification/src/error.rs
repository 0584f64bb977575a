//! Error kinds surfaced by the staking operations.

use vstd::prelude::*;

verus! {

/// Why a staking operation was refused. Every operation either succeeds or
/// returns one of these, leaving the ledger entry untouched.
#[derive(Clone, Copy, Debug, PartialEq, Eq, Structural)]
pub enum ErrorCode {
    /// The supplied vault address is not the derived custody address of the
    /// pool for this token type.
    InvalidVaultPda,
    /// The supplied stake-account address is not the derived entry address
    /// for this token type and owner.
    InvalidStakeAccountPda,
    /// The caller is not the owner recorded in the ledger entry.
    Unauthorized,
    /// More tokens were asked back than are currently staked.
    InsufficientFundsStaked,
    /// A reward or balance computation would exceed the 64-bit range; the
    /// operation fails closed rather than wrapping.
    ArithmeticOverflow,
}

} // verus!
