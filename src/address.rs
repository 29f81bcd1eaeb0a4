//! Deterministic sub-account addresses.

use vstd::prelude::*;

verus! {

/// The identity of the host's system program, owner of every unallocated
/// account: 32 zero bytes.
pub open spec fn system_program_id() -> Seq<u8> {
    crate::bytes::zeros(32)
}

/// Whether `key` is the system program's identity.
pub fn is_system_program(key: &[u8; 32]) -> (r: bool)
    ensures
        r == (key@ == system_program_id()),
{
    let mut i: usize = 0;
    while i < 32
        invariant
            i <= 32,
            key@.len() == 32,
            forall|j: int| 0 <= j < i ==> key@[j] == 0u8,
        decreases 32 - i,
    {
        if key[i] != 0u8 {
            assert(key@[i as int] != system_program_id()[i as int]);
            return false;
        }
        i = i + 1;
    }
    assert(key@ =~= system_program_id());
    true
}

/// The address that the host derives from `seeds` for `program_id`, if there is one.
pub uninterp spec fn program_address(seeds: Seq<Seq<u8>>, program_id: Seq<u8>) -> Option<Seq<u8>>;

/// The byte contents of each seed.
pub open spec fn seeds_view(seeds: Seq<Vec<u8>>) -> Seq<Seq<u8>> {
    seeds.map_values(|s: Vec<u8>| s@)
}

/// The view of an optional identity.
pub open spec fn key_option_view(k: Option<[u8; 32]>) -> Option<Seq<u8>> {
    match k {
        Some(a) => Some(a@),
        None => None,
    }
}

/// The seeds of a derivation path followed by its one-byte nonce.
pub open spec fn with_bump(seeds: Seq<Seq<u8>>, bump: u8) -> Seq<Seq<u8>> {
    seeds.push(seq![bump])
}

/// Relies on solana_program's `Pubkey::create_program_address`: the address it
/// returns, or its refusal, depends on the seeds and the program id alone.
#[verifier::external_body]
fn create_program_address(seeds: &Vec<Vec<u8>>, program_id: &[u8; 32]) -> (r: Option<[u8; 32]>)
    ensures
        key_option_view(r) == program_address(seeds_view(seeds@), program_id@),
{
    let parts: Vec<&[u8]> = seeds.iter().map(|s| s.as_slice()).collect();
    let program = solana_program::pubkey::Pubkey::new_from_array(*program_id);
    solana_program::pubkey::Pubkey::create_program_address(&parts, &program).ok().map(|k| k.to_bytes())
}

/// Whether `key` is the address derived from `seeds` and the nonce `bump` for `program_id`.
pub fn is_derived_address(key: &[u8; 32], seeds: Vec<Vec<u8>>, bump: u8, program_id: &[u8; 32]) -> (r: bool)
    ensures
        r == (program_address(with_bump(seeds_view(seeds@), bump), program_id@) == Some(key@)),
{
    let full = crate::seeds::signer_seeds(seeds, bump);
    match create_program_address(&full, program_id) {
        Some(a) => crate::bytes::same_key(&a, key),
        None => false,
    }
}

/// Whether no nonce from 1 to 255 derives an address from `seeds` for `program_id`.
pub open spec fn no_address(seeds: Seq<Seq<u8>>, program_id: Seq<u8>) -> bool {
    forall|b: u8| b >= 1 ==> (#[trigger] program_address(with_bump(seeds, b), program_id)) is None
}

/// Whether `key` is the canonical address of `seeds` for `program_id`, derived
/// with `bump`: the largest nonce that derives an address.
pub open spec fn canonical_address(seeds: Seq<Seq<u8>>, program_id: Seq<u8>, key: Seq<u8>, bump: u8) -> bool {
    &&& bump >= 1
    &&& program_address(with_bump(seeds, bump), program_id) == Some(key)
    &&& forall|b: u8| b > bump ==> (#[trigger] program_address(with_bump(seeds, b), program_id)) is None
}

/// Relies on solana_program's `Pubkey::try_find_program_address`: it tries the
/// nonces from 255 down to 1, and returns the first address, with its nonce,
/// that `create_program_address` gives for the seeds followed by the nonce;
/// when none does, it returns `None`.
#[verifier::external_body]
fn try_find_program_address(seeds: &Vec<Vec<u8>>, program_id: &[u8; 32]) -> (r: Option<([u8; 32], u8)>)
    ensures
        r is None <==> no_address(seeds_view(seeds@), program_id@),
        r matches Some(found) ==> canonical_address(seeds_view(seeds@), program_id@, found.0@, found.1),
{
    let parts: Vec<&[u8]> = seeds.iter().map(|s| s.as_slice()).collect();
    let program = solana_program::pubkey::Pubkey::new_from_array(*program_id);
    solana_program::pubkey::Pubkey::try_find_program_address(&parts, &program).map(|(k, b)| (k.to_bytes(), b))
}

/// The canonical address of `seeds` for `program_id`, with its nonce, if any
/// nonce derives one.
pub fn find_address(seeds: Vec<Vec<u8>>, program_id: &[u8; 32]) -> (r: Option<([u8; 32], u8)>)
    ensures
        r is None <==> no_address(seeds_view(seeds@), program_id@),
        r matches Some(found) ==> canonical_address(seeds_view(seeds@), program_id@, found.0@, found.1),
{
    try_find_program_address(&seeds, program_id)
}

/// A canonical address, and its nonce, are unique.
pub proof fn lemma_canonical_unique(seeds: Seq<Seq<u8>>, program_id: Seq<u8>, key: Seq<u8>, bump: u8)
    requires
        canonical_address(seeds, program_id, key, bump),
    ensures
        forall|k: Seq<u8>, b: u8|
            #[trigger] canonical_address(seeds, program_id, k, b) ==> k == key && b == bump,
{
    assert forall|k: Seq<u8>, b: u8| #[trigger] canonical_address(seeds, program_id, k, b) implies k
        == key && b == bump by {
        if b > bump {
            assert(program_address(with_bump(seeds, b), program_id) is None);
        } else if b < bump {
            assert(program_address(with_bump(seeds, bump), program_id) is None);
        }
    }
}

} // verus!
