//! Addresses that the protocol derives for itself. Such an address is a
//! function of a label, of the identities it is derived for and of the
//! program's own identity. No secret key exists for it: only the program can
//! sign for it, by presenting the seeds it was derived from.
//!
//! Two kinds of address are derived. A pool's record stands at the address
//! derived from the label `staking_pool` and the pool's type of token, so
//! there is one pool for each type of token. A user's stake record stands at
//! the address derived from the label `user_stake`, the pool's address and
//! the user's, so it is found without a table.
//!
//! The pool's address is also the authority over the pool's vault; there is
//! no other. The pool record keeps the bump seed of its address, and with it
//! the program signs for whatever leaves the vault.
use vstd::prelude::*;
use solana_program::pubkey::{Pubkey, PubkeyError};
use crate::codec::Address;

verus! {

/// `PubkeyError` of `solana_program`: why `create_program_address` gave no
/// address. Carried through unread; every such error means that there is no
/// address.
#[verifier::external_type_specification]
#[verifier::external_body]
pub struct ExPubkeyError(PubkeyError);

/// Label of the seeds of a pool's address: the bytes of `staking_pool`.
pub const POOL_LABEL: [u8; 12] = [115, 116, 97, 107, 105, 110, 103, 95, 112, 111, 111, 108];

/// Label of the seeds of a stake record's address: the bytes of `user_stake`.
pub const USER_STAKE_LABEL: [u8; 10] = [117, 115, 101, 114, 95, 115, 116, 97, 107, 101];

/// The address without a secret key that `seeds` and the program derive,
/// together with the bump seed that had to be added to reach it; `None`
/// where no bump seed leads to such an address.
pub uninterp spec fn derived_address(seeds: Seq<Seq<u8>>, program_id: Seq<u8>) -> Option<
    (Seq<u8>, u8),
>;

/// The address that `seeds`, taken as they are, and the program derive;
/// `None` where the seeds are too many or too long, or where what they lead to
/// could have a secret key.
pub uninterp spec fn seeded_address(seeds: Seq<Seq<u8>>, program_id: Seq<u8>) -> Option<Seq<u8>>;

/// The seeds of the address of the pool of token type `mint`.
pub open spec fn pool_seeds(mint: Seq<u8>) -> Seq<Seq<u8>> {
    seq![POOL_LABEL@, mint]
}

/// The seeds of the address of `user`'s stake record in `pool`.
pub open spec fn user_stake_seeds(pool: Seq<u8>, user: Seq<u8>) -> Seq<Seq<u8>> {
    seq![USER_STAKE_LABEL@, pool, user]
}

/// The seeds with which the program signs for the pool's address: those of
/// the address, then the bump seed on its own.
pub open spec fn pool_signer_seeds(mint: Seq<u8>, bump: u8) -> Seq<Seq<u8>> {
    pool_seeds(mint).push(seq![bump])
}

/// The seeds with which the program signs for the address of `user`'s stake
/// record in `pool`: those of the address, then the bump seed on its own.
pub open spec fn user_stake_signer_seeds(pool: Seq<u8>, user: Seq<u8>, bump: u8) -> Seq<Seq<u8>> {
    user_stake_seeds(pool, user).push(seq![bump])
}

/// The seeds that `seeds` holds, as plain bytes.
pub open spec fn seeds_view(seeds: &Vec<Vec<u8>>) -> Seq<Seq<u8>> {
    Seq::new(seeds@.len(), |i: int| seeds@[i]@)
}

/// A derived address and its bump seed, as plain bytes.
pub open spec fn derivation_view(derivation: Option<(Address, u8)>) -> Option<(Seq<u8>, u8)> {
    match derivation {
        Some((address, bump)) => Some((address@, bump)),
        None => None,
    }
}

/// An address, as plain bytes.
pub open spec fn address_view(address: Option<Address>) -> Option<Seq<u8>> {
    match address {
        Some(a) => Some(a@),
        None => None,
    }
}

/// Calls `Pubkey::try_find_program_address` of `solana_program`. The contract
/// names the result, and says what the function's loop shows: the address it
/// returns is the one that the same seeds, followed by the bump seed, derive
/// when taken as they are.
#[verifier::external_body]
fn try_find_program_address(seeds: &Vec<Vec<u8>>, program_id: &Address) -> (found: Option<
    (Address, u8),
>)
    ensures
        derivation_view(found) == derived_address(seeds_view(seeds), program_id@),
        found matches Some((address, bump)) ==> seeded_address(
            seeds_view(seeds).push(seq![bump]),
            program_id@,
        ) == Some(address@),
{
    let parts: Vec<&[u8]> = seeds.iter().map(|seed| seed.as_slice()).collect();
    let program = Pubkey::new_from_array(*program_id);
    Pubkey::try_find_program_address(&parts, &program).map(|(key, bump)| (key.to_bytes(), bump))
}

/// Calls `Pubkey::create_program_address` of `solana_program`. The contract
/// names the address that comes back, and says that an error comes back
/// where there is none.
#[verifier::external_body]
fn create_program_address(seeds: &Vec<Vec<u8>>, program_id: &Address) -> (created: Result<
    Address,
    PubkeyError,
>)
    ensures
        match created {
            Ok(address) => seeded_address(seeds_view(seeds), program_id@) == Some(address@),
            Err(_) => seeded_address(seeds_view(seeds), program_id@).is_none(),
        },
{
    let parts: Vec<&[u8]> = seeds.iter().map(|seed| seed.as_slice()).collect();
    let program = Pubkey::new_from_array(*program_id);
    Pubkey::create_program_address(&parts, &program).map(|key| key.to_bytes())
}

/// A copy of `bytes`, as one seed.
fn seed_of(bytes: &[u8]) -> (seed: Vec<u8>)
    ensures
        seed@ == bytes@,
{
    let mut seed: Vec<u8> = Vec::new();
    let mut i: usize = 0;
    while i < bytes.len()
        invariant
            i <= bytes@.len(),
            seed@ == bytes@.subrange(0, i as int),
        decreases bytes@.len() - i,
    {
        seed.push(bytes[i]);
        i += 1;
    }
    seed
}

/// The seeds of the address of the pool of token type `mint`.
pub fn make_pool_seeds(mint: &Address) -> (seeds: Vec<Vec<u8>>)
    ensures
        seeds_view(&seeds) == pool_seeds(mint@),
{
    let mut seeds: Vec<Vec<u8>> = Vec::new();
    seeds.push(seed_of(POOL_LABEL.as_slice()));
    seeds.push(seed_of(mint.as_slice()));
    seeds
}

/// The seeds of the address of `user`'s stake record in `pool`.
pub fn make_user_stake_seeds(pool: &Address, user: &Address) -> (seeds: Vec<Vec<u8>>)
    ensures
        seeds_view(&seeds) == user_stake_seeds(pool@, user@),
{
    let mut seeds: Vec<Vec<u8>> = Vec::new();
    seeds.push(seed_of(USER_STAKE_LABEL.as_slice()));
    seeds.push(seed_of(pool.as_slice()));
    seeds.push(seed_of(user.as_slice()));
    seeds
}

/// The seeds with which the program signs for the address of the pool of
/// token type `mint`, whose bump seed is `bump`.
pub fn make_pool_signer_seeds(mint: &Address, bump: u8) -> (seeds: Vec<Vec<u8>>)
    ensures
        seeds_view(&seeds) == pool_signer_seeds(mint@, bump),
{
    let mut seeds = make_pool_seeds(mint);
    let mut last: Vec<u8> = Vec::new();
    last.push(bump);
    seeds.push(last);
    seeds
}

/// The seeds with which the program signs for the address of `user`'s stake
/// record in `pool`, whose bump seed is `bump`.
pub fn make_user_stake_signer_seeds(pool: &Address, user: &Address, bump: u8) -> (seeds: Vec<
    Vec<u8>,
>)
    ensures
        seeds_view(&seeds) == user_stake_signer_seeds(pool@, user@, bump),
{
    let mut seeds = make_user_stake_seeds(pool, user);
    let mut last: Vec<u8> = Vec::new();
    last.push(bump);
    seeds.push(last);
    seeds
}

/// Derives the address of the pool of token type `mint`, and the bump seed
/// that the pool record keeps.
pub fn find_pool_address(mint: &Address, program_id: &Address) -> (found: Option<(Address, u8)>)
    ensures
        derivation_view(found) == derived_address(pool_seeds(mint@), program_id@),
        found matches Some((address, bump)) ==> seeded_address(
            pool_signer_seeds(mint@, bump),
            program_id@,
        ) == Some(address@),
{
    let seeds = make_pool_seeds(mint);
    try_find_program_address(&seeds, program_id)
}

/// Derives the address of `user`'s stake record in `pool`, and the bump
/// seed with which the program signs for it.
pub fn find_user_stake_address(pool: &Address, user: &Address, program_id: &Address) -> (found:
    Option<(Address, u8)>)
    ensures
        derivation_view(found) == derived_address(user_stake_seeds(pool@, user@), program_id@),
        found matches Some((address, bump)) ==> seeded_address(
            user_stake_signer_seeds(pool@, user@, bump),
            program_id@,
        ) == Some(address@),
{
    let seeds = make_user_stake_seeds(pool, user);
    try_find_program_address(&seeds, program_id)
}

/// Derives the pool's address again from the bump seed that its record
/// keeps: the address for which `make_pool_signer_seeds` signs.
pub fn replay_pool_address(mint: &Address, bump: u8, program_id: &Address) -> (replayed: Option<
    Address,
>)
    ensures
        address_view(replayed) == seeded_address(pool_signer_seeds(mint@, bump), program_id@),
{
    let seeds = make_pool_signer_seeds(mint, bump);
    match create_program_address(&seeds, program_id) {
        Ok(address) => Some(address),
        Err(_) => None,
    }
}

} // verus!
