use vstd::prelude::*;

use crate::constants::{STAKE_INFO_SEED, TOKEN_SEED, VAULT_SEED};

verus! {

/// Seed naming the shared reward vault.
pub open spec fn vault_seed() -> Seq<u8> {
    VAULT_SEED@
}

/// Seed naming a participant's ledger entry.
pub open spec fn stake_info_seed() -> Seq<u8> {
    STAKE_INFO_SEED@
}

/// Seed naming a participant's escrow account.
pub open spec fn token_seed() -> Seq<u8> {
    TOKEN_SEED@
}

/// The program-derived address and bump seed found for `seeds` under
/// `program_id`, or `None` when no bump seed yields an off-curve address.
pub uninterp spec fn program_address_of(seeds: Seq<Seq<u8>>, program_id: Seq<u8>) -> Option<(Seq<u8>, u8)>;

/// Relies on `solana_program::pubkey::Pubkey::try_find_program_address`: a
/// deterministic function of the seeds and the program id.
#[verifier::external_body]
fn find_program_address(seeds: &Vec<Vec<u8>>, program_id: &[u8; 32]) -> (r: Option<([u8; 32], u8)>)
    ensures
        r.deep_view() == program_address_of(seeds.deep_view(), program_id@),
{
    let parts: Vec<&[u8]> = seeds.iter().map(|s| s.as_slice()).collect();
    let program = solana_program::pubkey::Pubkey::new_from_array(*program_id);
    solana_program::pubkey::Pubkey::try_find_program_address(&parts, &program).map(
        |(key, bump)| (key.to_bytes(), bump),
    )
}

/// A copy of `bytes` as a vector.
fn bytes_to_vec(bytes: &[u8]) -> (r: Vec<u8>)
    ensures
        r@ == bytes@,
{
    let mut r: Vec<u8> = Vec::new();
    let mut i: usize = 0;
    while i < bytes.len()
        invariant
            i <= bytes@.len(),
            r@ == bytes@.subrange(0, i as int),
        decreases bytes@.len() - i,
    {
        r.push(bytes[i]);
        i = i + 1;
    }
    assert(r@ =~= bytes@);
    r
}

/// Seeds of the shared reward vault.
pub fn vault_seeds() -> (r: Vec<Vec<u8>>)
    ensures
        r.deep_view() == seq![vault_seed()],
{
    let r = vec![bytes_to_vec(&VAULT_SEED)];
    assert(r@[0].deep_view() =~= vault_seed());
    assert(r.deep_view() =~= seq![vault_seed()]);
    r
}

/// Seeds of the ledger entry of the participant `staker`.
pub fn stake_info_seeds(staker: &[u8; 32]) -> (r: Vec<Vec<u8>>)
    ensures
        r.deep_view() == seq![stake_info_seed(), staker@],
{
    let r = vec![
        bytes_to_vec(&STAKE_INFO_SEED),
        bytes_to_vec(staker),
    ];
    assert(r@[0].deep_view() =~= stake_info_seed());
    assert(r@[1].deep_view() =~= staker@);
    assert(r.deep_view() =~= seq![stake_info_seed(), staker@]);
    r
}

/// Seeds of the escrow account of the participant `staker`.
pub fn stake_account_seeds(staker: &[u8; 32]) -> (r: Vec<Vec<u8>>)
    ensures
        r.deep_view() == seq![token_seed(), staker@],
{
    let r = vec![bytes_to_vec(&TOKEN_SEED), bytes_to_vec(staker)];
    assert(r@[0].deep_view() =~= token_seed());
    assert(r@[1].deep_view() =~= staker@);
    assert(r.deep_view() =~= seq![token_seed(), staker@]);
    r
}

/// The seeds with which the program signs for an account derived from
/// `seeds`: those seeds followed by the one-byte bump seed.
pub fn signer_seeds(seeds: Vec<Vec<u8>>, bump: u8) -> (r: Vec<Vec<u8>>)
    ensures
        r.deep_view() == seeds.deep_view().push(seq![bump]),
{
    let mut r = seeds;
    let last = vec![bump];
    assert(last.deep_view() =~= seq![bump]);
    r.push(last);
    assert(r.deep_view() =~= seeds.deep_view().push(seq![bump]));
    r
}

/// Address and bump seed of the shared reward vault.
pub fn vault_address(program_id: &[u8; 32]) -> (r: Option<([u8; 32], u8)>)
    ensures
        r.deep_view() == program_address_of(seq![vault_seed()], program_id@),
{
    find_program_address(&vault_seeds(), program_id)
}

/// Address and bump seed of the ledger entry of the participant `staker`.
pub fn stake_info_address(program_id: &[u8; 32], staker: &[u8; 32]) -> (r: Option<([u8; 32], u8)>)
    ensures
        r.deep_view() == program_address_of(seq![stake_info_seed(), staker@], program_id@),
{
    find_program_address(&stake_info_seeds(staker), program_id)
}

/// Address and bump seed of the escrow account of the participant `staker`.
pub fn stake_account_address(program_id: &[u8; 32], staker: &[u8; 32]) -> (r: Option<([u8; 32], u8)>)
    ensures
        r.deep_view() == program_address_of(seq![token_seed(), staker@], program_id@),
{
    find_program_address(&stake_account_seeds(staker), program_id)
}

} // verus!
