//! Deterministic derivation of custodial addresses.
//!
//! A custodial address is a pure function of a namespace tag, the token
//! type, and (for personal entries) the owner, derived by the host
//! runtime's program-derived-address scheme. The derivation itself lives in
//! the outside crate; this module names its result and builds the exact
//! seed lists the staking ledger uses.

use vstd::prelude::*;

verus! {

/// What the program-derived-address search returns for given seeds and
/// program id: the derived address bytes and the bump seed, or `None` in
/// the statistically improbable case that no bump yields a valid address.
/// The result is a function of the seeds and the program id alone.
pub uninterp spec fn pda_of(seeds: Seq<Seq<u8>>, program_id: Seq<u8>) -> Option<(Seq<u8>, u8)>;

/// The spec-level shape of a derivation result: raw address bytes and bump.
pub open spec fn pda_view(r: Option<([u8; 32], u8)>) -> Option<(Seq<u8>, u8)> {
    match r {
        Some((address, bump)) => Some((address@, bump)),
        None => None,
    }
}

/// Relies on `Pubkey::try_find_program_address` (reached through
/// `anchor_lang::solana_program::pubkey`): the derived address and bump
/// depend on the seeds and the program id alone, and the call returns
/// `None` rather than panicking when the search fails.
#[verifier::external_body]
fn try_derive_address(seeds: &Vec<Vec<u8>>, program_id: &[u8; 32]) -> (r: Option<([u8; 32], u8)>)
    ensures
        pda_view(r) == pda_of(seeds@.map_values(|s: Vec<u8>| s@), program_id@),
{
    let id = anchor_lang::solana_program::pubkey::Pubkey::new_from_array(*program_id);
    let seed_refs: Vec<&[u8]> = seeds.iter().map(|s| s.as_slice()).collect();
    anchor_lang::solana_program::pubkey::Pubkey::try_find_program_address(&seed_refs, &id).map(
        |found: (anchor_lang::solana_program::pubkey::Pubkey, u8)| (found.0.to_bytes(), found.1),
    )
}

/// The namespace tag of the stake pool: the bytes of "stake-vault".
pub open spec fn stake_vault_tag() -> Seq<u8> {
    seq![115u8, 116u8, 97u8, 107u8, 101u8, 45u8, 118u8, 97u8, 117u8, 108u8, 116u8]
}

/// The namespace tag of the reward pool: the bytes of "reward-vault".
pub open spec fn reward_vault_tag() -> Seq<u8> {
    seq![114u8, 101u8, 119u8, 97u8, 114u8, 100u8, 45u8, 118u8, 97u8, 117u8, 108u8, 116u8]
}

/// The namespace tag of a ledger entry: the bytes of "stake-account".
pub open spec fn stake_account_tag() -> Seq<u8> {
    seq![115u8, 116u8, 97u8, 107u8, 101u8, 45u8, 97u8, 99u8, 99u8, 111u8, 117u8, 110u8, 116u8]
}

/// The seeds that derive the stake pool address of a token type.
pub open spec fn stake_vault_seeds(mint: Seq<u8>) -> Seq<Seq<u8>> {
    seq![stake_vault_tag(), mint]
}

/// The seeds that derive the reward pool address of a token type.
pub open spec fn reward_vault_seeds(mint: Seq<u8>) -> Seq<Seq<u8>> {
    seq![reward_vault_tag(), mint]
}

/// The seeds that derive a ledger entry address from a token type and its
/// owner. No two distinct pairs share the same seed list.
pub open spec fn stake_account_seeds(mint: Seq<u8>, owner: Seq<u8>) -> Seq<Seq<u8>> {
    seq![stake_account_tag(), mint, owner]
}

fn make_stake_vault_tag() -> (r: Vec<u8>)
    ensures
        r@ == stake_vault_tag(),
{
    let mut tag: Vec<u8> = Vec::new();
    tag.push(115);
    tag.push(116);
    tag.push(97);
    tag.push(107);
    tag.push(101);
    tag.push(45);
    tag.push(118);
    tag.push(97);
    tag.push(117);
    tag.push(108);
    tag.push(116);
    proof {
        assert(tag@ =~= stake_vault_tag());
    }
    tag
}

fn make_reward_vault_tag() -> (r: Vec<u8>)
    ensures
        r@ == reward_vault_tag(),
{
    let mut tag: Vec<u8> = Vec::new();
    tag.push(114);
    tag.push(101);
    tag.push(119);
    tag.push(97);
    tag.push(114);
    tag.push(100);
    tag.push(45);
    tag.push(118);
    tag.push(97);
    tag.push(117);
    tag.push(108);
    tag.push(116);
    proof {
        assert(tag@ =~= reward_vault_tag());
    }
    tag
}

fn make_stake_account_tag() -> (r: Vec<u8>)
    ensures
        r@ == stake_account_tag(),
{
    let mut tag: Vec<u8> = Vec::new();
    tag.push(115);
    tag.push(116);
    tag.push(97);
    tag.push(107);
    tag.push(101);
    tag.push(45);
    tag.push(97);
    tag.push(99);
    tag.push(99);
    tag.push(111);
    tag.push(117);
    tag.push(110);
    tag.push(116);
    proof {
        assert(tag@ =~= stake_account_tag());
    }
    tag
}

/// Copy 32 address bytes into an owned seed.
fn bytes32_to_vec(bytes: &[u8; 32]) -> (r: Vec<u8>)
    ensures
        r@ == bytes@,
{
    let mut out: Vec<u8> = Vec::new();
    let mut i: usize = 0;
    while i < 32
        invariant
            0 <= i <= 32,
            out@ =~= bytes@.subrange(0, i as int),
        decreases 32 - i,
    {
        out.push(bytes[i]);
        i = i + 1;
    }
    proof {
        assert(out@ =~= bytes@);
    }
    out
}

/// Whether two addresses hold the same 32 bytes.
pub fn bytes32_eq(a: &[u8; 32], b: &[u8; 32]) -> (r: bool)
    ensures
        r == (a@ == b@),
{
    let mut i: usize = 0;
    while i < 32
        invariant
            0 <= i <= 32,
            forall|j: int| 0 <= j < i ==> a@[j] == b@[j],
        decreases 32 - i,
    {
        if a[i] != b[i] {
            return false;
        }
        i = i + 1;
    }
    proof {
        assert(a@ =~= b@);
    }
    true
}

/// Derive the stake pool address of `mint` under `program_id`.
pub fn derive_stake_vault_address(mint: &[u8; 32], program_id: &[u8; 32]) -> (r: Option<
    ([u8; 32], u8),
>)
    ensures
        pda_view(r) == pda_of(stake_vault_seeds(mint@), program_id@),
{
    let mut seeds: Vec<Vec<u8>> = Vec::new();
    seeds.push(make_stake_vault_tag());
    seeds.push(bytes32_to_vec(mint));
    proof {
        assert(seeds@.map_values(|s: Vec<u8>| s@) =~= stake_vault_seeds(mint@));
    }
    try_derive_address(&seeds, program_id)
}

/// Derive the reward pool address of `mint` under `program_id`.
pub fn derive_reward_vault_address(mint: &[u8; 32], program_id: &[u8; 32]) -> (r: Option<
    ([u8; 32], u8),
>)
    ensures
        pda_view(r) == pda_of(reward_vault_seeds(mint@), program_id@),
{
    let mut seeds: Vec<Vec<u8>> = Vec::new();
    seeds.push(make_reward_vault_tag());
    seeds.push(bytes32_to_vec(mint));
    proof {
        assert(seeds@.map_values(|s: Vec<u8>| s@) =~= reward_vault_seeds(mint@));
    }
    try_derive_address(&seeds, program_id)
}

/// Derive the ledger entry address of `owner` for `mint` under `program_id`.
pub fn derive_stake_account_address(mint: &[u8; 32], owner: &[u8; 32], program_id: &[u8; 32]) -> (r:
    Option<([u8; 32], u8)>)
    ensures
        pda_view(r) == pda_of(stake_account_seeds(mint@, owner@), program_id@),
{
    let mut seeds: Vec<Vec<u8>> = Vec::new();
    seeds.push(make_stake_account_tag());
    seeds.push(bytes32_to_vec(mint));
    seeds.push(bytes32_to_vec(owner));
    proof {
        assert(seeds@.map_values(|s: Vec<u8>| s@) =~= stake_account_seeds(mint@, owner@));
    }
    try_derive_address(&seeds, program_id)
}

} // verus!
