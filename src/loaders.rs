//! Precondition checks that gate every mutation. Each fails closed, in a fixed
//! order: owner, presence of bytes, shape, bound identities, write access.

use crate::account::AccountView;
use crate::address::{is_derived_address, is_system_program, program_address, seeds_view, system_program_id, with_bump};
use crate::error::LoadError;
use crate::ledger::{is_token_account, unpack_token_account, ProofView, TokenAccountView};
use crate::relay::state::{Escrow, Relayer};
use crate::stake::state::{Delegate, Pool};
use vstd::prelude::*;

verus! {

/// The outcome of checking a stored record: `fits` says whether its shape is
/// the expected one, `bound` whether its stored identities are the expected ones.
pub open spec fn record_check(info: AccountView, owner: Seq<u8>, fits: bool, bound: bool, is_writable: bool) -> Result<(), LoadError> {
    if info.owner@ != owner {
        Err(LoadError::OwnerMismatch)
    } else if info.data@.len() == 0 {
        Err(LoadError::Uninitialized)
    } else if !fits {
        Err(LoadError::ShapeMismatch)
    } else if !bound {
        Err(LoadError::AuthorityMismatch)
    } else if is_writable && !info.is_writable {
        Err(LoadError::NotWritable)
    } else {
        Ok(())
    }
}

/// Whether `r` fails exactly as `expected` does, or succeeds exactly when it does.
pub open spec fn same_outcome<T, E>(r: Result<T, E>, expected: Result<(), E>) -> bool {
    match (r, expected) {
        (Ok(_), Ok(_)) => true,
        (Err(a), Err(b)) => a == b,
        _ => false,
    }
}

/// The outcome of the signature check on `info`.
pub open spec fn signer_check(info: AccountView) -> Result<(), LoadError> {
    if info.is_signer {
        Ok(())
    } else {
        Err(LoadError::MissingSignature)
    }
}

/// Whether the identity stored at `at` in `data` is `expected`, where one is given.
pub open spec fn binds(data: Seq<u8>, at: int, expected: Option<Seq<u8>>) -> bool {
    match expected {
        Some(k) => data.subrange(at, at + 32) == k,
        None => true,
    }
}

/// The outcome of loading an escrow of `program_id`, bound to `authority` where one is given.
pub open spec fn escrow_check(info: AccountView, program_id: Seq<u8>, authority: Option<Seq<u8>>, is_writable: bool) -> Result<(), LoadError> {
    record_check(info, program_id, Escrow::fits(info.data@), binds(info.data@, 8, authority), is_writable)
}

/// The outcome of loading a relayer of `program_id`.
pub open spec fn relayer_check(info: AccountView, program_id: Seq<u8>, is_writable: bool) -> Result<(), LoadError> {
    record_check(info, program_id, Relayer::fits(info.data@), true, is_writable)
}

/// The outcome of loading a delegate of `program_id` bound to `authority` and `pool`.
pub open spec fn delegate_check(info: AccountView, program_id: Seq<u8>, authority: Seq<u8>, pool: Seq<u8>, is_writable: bool) -> Result<(), LoadError> {
    record_check(
        info,
        program_id,
        Delegate::fits(info.data@),
        binds(info.data@, 8, Some(authority)) && binds(info.data@, 48, Some(pool)),
        is_writable,
    )
}

/// The outcome of loading a pool of `program_id`.
pub open spec fn pool_check(info: AccountView, program_id: Seq<u8>, is_writable: bool) -> Result<(), LoadError> {
    record_check(info, program_id, Pool::fits(info.data@), true, is_writable)
}

/// The outcome of loading the external ledger's proof of the sub-account `authority`.
pub open spec fn proof_check(info: AccountView, ledger_program: Seq<u8>, authority: Seq<u8>, is_writable: bool) -> Result<(), LoadError> {
    record_check(info, ledger_program, ProofView::fits(info.data@), binds(info.data@, 8, Some(authority)), is_writable)
}

/// The outcome of loading a token account of `mint`, held by `owner` where one is given.
pub open spec fn token_check(info: AccountView, token_program: Seq<u8>, owner: Option<Seq<u8>>, mint: Seq<u8>, is_writable: bool) -> Result<(), LoadError> {
    record_check(
        info,
        token_program,
        is_token_account(info.data@) && info.data@.subrange(0, 32) == mint,
        binds(info.data@, 32, owner),
        is_writable,
    )
}

/// The outcome of checking that `info` is an unallocated account at the
/// address derived from `seeds` and `bump` for `program_id`.
pub open spec fn fresh_check(info: AccountView, seeds: Seq<Seq<u8>>, bump: u8, program_id: Seq<u8>) -> Result<(), LoadError> {
    if program_address(with_bump(seeds, bump), program_id) != Some(info.key@) {
        Err(LoadError::InvalidDerivation)
    } else if info.owner@ != system_program_id() {
        Err(LoadError::OwnerMismatch)
    } else if info.data@.len() != 0 {
        Err(LoadError::AlreadyInitialized)
    } else if !info.is_writable {
        Err(LoadError::NotWritable)
    } else {
        Ok(())
    }
}

/// Fails unless the caller signed for `info`.
pub fn load_signer(info: &AccountView) -> (r: Result<(), LoadError>)
    ensures
        r == signer_check(*info),
{
    if info.is_signer {
        Ok(())
    } else {
        Err(LoadError::MissingSignature)
    }
}

/// Checks owner, presence of bytes and write access of a record whose shape and
/// bindings the caller has already judged.
fn check_record(info: &AccountView, owner: &[u8; 32], fits: bool, bound: bool, is_writable: bool) -> (r: Result<(), LoadError>)
    ensures
        r == record_check(*info, owner@, fits, bound, is_writable),
{
    if !crate::bytes::same_key(&info.owner, owner) {
        Err(LoadError::OwnerMismatch)
    } else if info.data.len() == 0 {
        Err(LoadError::Uninitialized)
    } else if !fits {
        Err(LoadError::ShapeMismatch)
    } else if !bound {
        Err(LoadError::AuthorityMismatch)
    } else if is_writable && !info.is_writable {
        Err(LoadError::NotWritable)
    } else {
        Ok(())
    }
}

/// Loads the escrow stored in `info`, which must belong to `program_id` and to
/// the user `authority`.
pub fn load_escrow(info: &AccountView, program_id: &[u8; 32], authority: &[u8; 32], is_writable: bool) -> (r: Result<Escrow, LoadError>)
    ensures
        same_outcome(r, escrow_check(*info, program_id@, Some(authority@), is_writable)),
        r matches Ok(e) ==> e.decoded_from(info.data@),
{
    let decoded = Escrow::from_bytes(info.data.as_slice());
    let bound = match &decoded {
        Some(e) => crate::bytes::same_key(&e.authority, authority),
        None => false,
    };
    check_record(info, program_id, decoded.is_some(), bound, is_writable)?;
    match decoded {
        Some(e) => Ok(e),
        None => Err(LoadError::ShapeMismatch),
    }
}

/// Loads any escrow of `program_id` stored in `info`, whoever its user.
pub fn load_any_escrow(info: &AccountView, program_id: &[u8; 32], is_writable: bool) -> (r: Result<Escrow, LoadError>)
    ensures
        same_outcome(r, escrow_check(*info, program_id@, None, is_writable)),
        r matches Ok(e) ==> e.decoded_from(info.data@),
{
    let decoded = Escrow::from_bytes(info.data.as_slice());
    check_record(info, program_id, decoded.is_some(), true, is_writable)?;
    match decoded {
        Some(e) => Ok(e),
        None => Err(LoadError::ShapeMismatch),
    }
}

/// Loads any relayer of `program_id` stored in `info`.
pub fn load_relayer(info: &AccountView, program_id: &[u8; 32], is_writable: bool) -> (r: Result<Relayer, LoadError>)
    ensures
        same_outcome(r, relayer_check(*info, program_id@, is_writable)),
        r matches Ok(e) ==> e.decoded_from(info.data@),
{
    let decoded = Relayer::from_bytes(info.data.as_slice());
    check_record(info, program_id, decoded.is_some(), true, is_writable)?;
    match decoded {
        Some(e) => Ok(e),
        None => Err(LoadError::ShapeMismatch),
    }
}

/// Loads the delegate stored in `info`, which must belong to `program_id`, to
/// the depositor `authority` and to the pool `pool`.
pub fn load_delegate(info: &AccountView, program_id: &[u8; 32], authority: &[u8; 32], pool: &[u8; 32], is_writable: bool) -> (r: Result<Delegate, LoadError>)
    ensures
        same_outcome(r, delegate_check(*info, program_id@, authority@, pool@, is_writable)),
        r matches Ok(e) ==> e.decoded_from(info.data@),
{
    let decoded = Delegate::from_bytes(info.data.as_slice());
    let bound = match &decoded {
        Some(e) => crate::bytes::same_key(&e.authority, authority) && crate::bytes::same_key(&e.pool, pool),
        None => false,
    };
    check_record(info, program_id, decoded.is_some(), bound, is_writable)?;
    match decoded {
        Some(e) => Ok(e),
        None => Err(LoadError::ShapeMismatch),
    }
}

/// Loads any pool of `program_id` stored in `info`.
pub fn load_any_pool(info: &AccountView, program_id: &[u8; 32], is_writable: bool) -> (r: Result<Pool, LoadError>)
    ensures
        same_outcome(r, pool_check(*info, program_id@, is_writable)),
        r matches Ok(e) ==> e.decoded_from(info.data@),
{
    let decoded = Pool::from_bytes(info.data.as_slice());
    check_record(info, program_id, decoded.is_some(), true, is_writable)?;
    match decoded {
        Some(e) => Ok(e),
        None => Err(LoadError::ShapeMismatch),
    }
}

/// Loads the external ledger's proof stored in `info`, which must belong to
/// `ledger_program` and to the sub-account `authority`.
pub fn load_proof(info: &AccountView, ledger_program: &[u8; 32], authority: &[u8; 32], is_writable: bool) -> (r: Result<ProofView, LoadError>)
    ensures
        same_outcome(r, proof_check(*info, ledger_program@, authority@, is_writable)),
        r matches Ok(p) ==> p.decoded_from(info.data@),
{
    let decoded = ProofView::from_bytes(info.data.as_slice());
    let bound = match &decoded {
        Some(p) => crate::bytes::same_key(&p.authority, authority),
        None => false,
    };
    check_record(info, ledger_program, decoded.is_some(), bound, is_writable)?;
    match decoded {
        Some(p) => Ok(p),
        None => Err(LoadError::ShapeMismatch),
    }
}

/// The view of an optional borrowed identity.
pub open spec fn key_option(k: Option<&[u8; 32]>) -> Option<Seq<u8>> {
    match k {
        Some(a) => Some(a@),
        None => None,
    }
}

/// Loads the token account stored in `info`: owned by `token_program`, of
/// `mint`, and, where `owner` is given, held by `owner`.
pub fn load_token_account(info: &AccountView, token_program: &[u8; 32], owner: Option<&[u8; 32]>, mint: &[u8; 32], is_writable: bool) -> (r: Result<TokenAccountView, LoadError>)
    ensures
        same_outcome(r, token_check(*info, token_program@, key_option(owner), mint@, is_writable)),
        r matches Ok(t) ==> t.mint@ == info.data@.subrange(0, 32) && t.owner@ == info.data@.subrange(32, 64),
{
    let decoded = unpack_token_account(info.data.as_slice());
    let fits = match &decoded {
        Some(a) => crate::bytes::same_key(&a.mint, mint),
        None => false,
    };
    let bound = match (&decoded, owner) {
        (Some(a), Some(o)) => crate::bytes::same_key(&a.owner, o),
        _ => true,
    };
    check_record(info, token_program, fits, bound, is_writable)?;
    match decoded {
        Some(a) => Ok(a),
        None => Err(LoadError::ShapeMismatch),
    }
}

/// Checks that `info` is an unallocated, writable account at the address
/// derived from `seeds` and `bump` for `program_id`.
pub fn load_uninitialized_pda(info: &AccountView, seeds: Vec<Vec<u8>>, bump: u8, program_id: &[u8; 32]) -> (r: Result<(), LoadError>)
    ensures
        r == fresh_check(*info, seeds_view(seeds@), bump, program_id@),
{
    if !is_derived_address(&info.key, seeds, bump, program_id) {
        return Err(LoadError::InvalidDerivation);
    }
    if !is_system_program(&info.owner) {
        return Err(LoadError::OwnerMismatch);
    }
    if info.data.len() != 0 {
        return Err(LoadError::AlreadyInitialized);
    }
    if !info.is_writable {
        return Err(LoadError::NotWritable);
    }
    Ok(())
}

} // verus!
