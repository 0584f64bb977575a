//! Custodial pools and the self-authorized transfer capability.
//!
//! Each token type has two pools, a stake pool and a reward pool, each
//! addressed by derivation. A pool's sole transfer authority is its own
//! derived address: no holder's key can sign an outbound pool transfer.

use vstd::prelude::*;

use crate::error::ErrorCode;
use crate::pda;

verus! {

/// Which custodial pool of a token type is meant.
#[derive(Clone, Copy, Debug, PartialEq, Eq, Structural)]
pub enum PoolKind {
    /// Holds staked principal.
    Stake,
    /// Holds reward funds.
    Reward,
}

/// The seeds that derive the custody address of a pool.
pub open spec fn pool_seeds(kind: PoolKind, mint: Seq<u8>) -> Seq<Seq<u8>> {
    match kind {
        PoolKind::Stake => pda::stake_vault_seeds(mint),
        PoolKind::Reward => pda::reward_vault_seeds(mint),
    }
}

/// A transfer directive for the external token ledger: move `amount` of the
/// token from `from` to `to`, signed by `authority`. `authority_bump` is
/// `Some` exactly when the authority is a derived custody address signing
/// for itself with its bump seed.
#[derive(Clone, Copy, Debug, PartialEq, Eq)]
pub struct TokenTransfer {
    /// The account debited.
    pub from: [u8; 32],
    /// The account credited.
    pub to: [u8; 32],
    /// How many token units move.
    pub amount: u64,
    /// The identity that authorizes the debit.
    pub authority: [u8; 32],
    /// The bump seed of a self-authorizing custody address.
    pub authority_bump: Option<u8>,
}

/// A pool handle: the token type it custodies and its derived address with
/// the bump seed that lets the pool sign for itself.
#[derive(Clone, Copy, Debug, PartialEq, Eq)]
pub struct VaultPool {
    /// Stake pool or reward pool.
    pub kind: PoolKind,
    /// The token type this pool custodies.
    pub mint: [u8; 32],
    /// The pool's derived custody address.
    pub address: [u8; 32],
    /// The bump seed found by the derivation.
    pub bump: u8,
}

impl VaultPool {
    /// The address and bump are exactly what the deterministic derivation
    /// yields for this pool's kind and token type under `program_id`.
    pub open spec fn wf(self, program_id: Seq<u8>) -> bool {
        pda::pda_of(pool_seeds(self.kind, self.mint@), program_id) == Some(
            (self.address@, self.bump),
        )
    }

    /// Derive the pool handle of `kind` for `mint`. Fails only when the
    /// derivation finds no address for these seeds.
    pub fn derive(kind: PoolKind, mint: &[u8; 32], program_id: &[u8; 32]) -> (r: Result<
        VaultPool,
        ErrorCode,
    >)
        ensures
            match r {
                Ok(pool) => {
                    &&& pool.wf(program_id@)
                    &&& pool.kind == kind
                    &&& pool.mint@ == mint@
                },
                Err(e) => {
                    &&& e == ErrorCode::InvalidVaultPda
                    &&& pda::pda_of(pool_seeds(kind, mint@), program_id@) is None
                },
            },
    {
        let derived = match kind {
            PoolKind::Stake => pda::derive_stake_vault_address(mint, program_id),
            PoolKind::Reward => pda::derive_reward_vault_address(mint, program_id),
        };
        match derived {
            Some((address, bump)) => Ok(VaultPool { kind, mint: *mint, address, bump }),
            None => Err(ErrorCode::InvalidVaultPda),
        }
    }

    /// The pool's one capability: a transfer of `amount` out of the pool to
    /// `to`, authorized by the pool's own derived address — self-custody,
    /// never a holder's key.
    pub fn withdraw(&self, to: &[u8; 32], amount: u64) -> (t: TokenTransfer)
        ensures
            t.from@ == self.address@,
            t.to@ == to@,
            t.amount == amount,
            t.authority@ == self.address@,
            t.authority_bump == Some(self.bump),
    {
        TokenTransfer {
            from: self.address,
            to: *to,
            amount,
            authority: self.address,
            authority_bump: Some(self.bump),
        }
    }
}

} // verus!
