//! Accounting core of a token-staking ledger.
//!
//! A holder deposits fungible tokens into a program-controlled vault,
//! accrues rewards proportional to staked amount and elapsed time, and
//! withdraws principal and claims rewards. The custodial addresses are a
//! deterministic derivation from a namespace tag, the token type, and (for
//! personal entries) the owner; a pool's own derived address is its sole
//! transfer authority. Every state transition is authorized by the entry's
//! owner and leaves the ledger untouched on failure.

pub mod account;
pub mod error;
pub mod ops;
pub mod pda;
pub mod vault;
