//! Derivation paths of the sub-accounts: a fixed label followed by the
//! identities the sub-account belongs to.

use vstd::prelude::*;

verus! {

/// The label of escrow paths: `escrow`.
pub open spec fn escrow_label() -> Seq<u8> {
    seq![101u8, 115, 99, 114, 111, 119]
}

/// The label of relayer paths: `relayer`.
pub open spec fn relayer_label() -> Seq<u8> {
    seq![114u8, 101, 108, 97, 121, 101, 114]
}

/// The label of the external ledger's proof paths: `proof`.
pub open spec fn proof_label() -> Seq<u8> {
    seq![112u8, 114, 111, 111, 102]
}

/// The label of pool paths: `pool`.
pub open spec fn pool_label() -> Seq<u8> {
    seq![112u8, 111, 111, 108]
}

/// The label of delegate paths: `delegate`.
pub open spec fn delegate_label() -> Seq<u8> {
    seq![100u8, 101, 108, 101, 103, 97, 116, 101]
}

/// The path of the escrow of user `authority` with relayer `relayer`.
pub open spec fn escrow_path(authority: Seq<u8>, relayer: Seq<u8>) -> Seq<Seq<u8>> {
    seq![escrow_label(), authority, relayer]
}

/// The path of the relayer run by `authority`.
pub open spec fn relayer_path(authority: Seq<u8>) -> Seq<Seq<u8>> {
    seq![relayer_label(), authority]
}

/// The path of the external ledger's proof of the sub-account `owner`.
pub open spec fn proof_path(owner: Seq<u8>) -> Seq<Seq<u8>> {
    seq![proof_label(), owner]
}

/// The path of the pool run by `authority`.
pub open spec fn pool_path(authority: Seq<u8>) -> Seq<Seq<u8>> {
    seq![pool_label(), authority]
}

/// The path of the delegate of depositor `authority` in `pool`.
pub open spec fn delegate_path(authority: Seq<u8>, pool: Seq<u8>) -> Seq<Seq<u8>> {
    seq![delegate_label(), authority, pool]
}

fn key_bytes(k: &[u8; 32]) -> (r: Vec<u8>)
    ensures
        r@ == k@,
{
    let mut v: Vec<u8> = Vec::new();
    crate::bytes::push_key(&mut v, k);
    assert(v@ =~= k@);
    v
}

fn label(which: u8) -> (r: Vec<u8>)
    ensures
        which == 0 ==> r@ == escrow_label(),
        which == 1 ==> r@ == relayer_label(),
        which == 2 ==> r@ == proof_label(),
        which == 3 ==> r@ == pool_label(),
        which == 4 ==> r@ == delegate_label(),
{
    let mut v: Vec<u8> = Vec::new();
    if which == 0 {
        v.push(101u8); v.push(115u8); v.push(99u8); v.push(114u8); v.push(111u8); v.push(119u8);
        assert(v@ =~= escrow_label());
    } else if which == 1 {
        v.push(114u8); v.push(101u8); v.push(108u8); v.push(97u8); v.push(121u8); v.push(101u8);
        v.push(114u8);
        assert(v@ =~= relayer_label());
    } else if which == 2 {
        v.push(112u8); v.push(114u8); v.push(111u8); v.push(111u8); v.push(102u8);
        assert(v@ =~= proof_label());
    } else if which == 3 {
        v.push(112u8); v.push(111u8); v.push(111u8); v.push(108u8);
        assert(v@ =~= pool_label());
    } else {
        v.push(100u8); v.push(101u8); v.push(108u8); v.push(101u8); v.push(103u8); v.push(97u8);
        v.push(116u8); v.push(101u8);
        assert(v@ =~= delegate_label());
    }
    v
}

fn path_of(which: u8, first: &[u8; 32], second: Option<&[u8; 32]>) -> (r: Vec<Vec<u8>>)
    requires
        which <= 4,
    ensures
        second is None ==> crate::address::seeds_view(r@) == seq![label_spec(which), first@],
        second matches Some(s) ==> crate::address::seeds_view(r@) == seq![
            label_spec(which),
            first@,
            s@,
        ],
{
    let mut v: Vec<Vec<u8>> = Vec::new();
    v.push(label(which));
    v.push(key_bytes(first));
    match second {
        Some(s) => {
            v.push(key_bytes(s));
            assert(crate::address::seeds_view(v@) =~= seq![label_spec(which), first@, s@]);
        },
        None => {
            assert(crate::address::seeds_view(v@) =~= seq![label_spec(which), first@]);
        },
    }
    v
}

spec fn label_spec(which: u8) -> Seq<u8> {
    if which == 0 {
        escrow_label()
    } else if which == 1 {
        relayer_label()
    } else if which == 2 {
        proof_label()
    } else if which == 3 {
        pool_label()
    } else {
        delegate_label()
    }
}

/// The seeds of the escrow of `authority` with `relayer`.
pub fn escrow_seeds(authority: &[u8; 32], relayer: &[u8; 32]) -> (r: Vec<Vec<u8>>)
    ensures
        crate::address::seeds_view(r@) == escrow_path(authority@, relayer@),
{
    path_of(0, authority, Some(relayer))
}

/// The seeds of the relayer run by `authority`.
pub fn relayer_seeds(authority: &[u8; 32]) -> (r: Vec<Vec<u8>>)
    ensures
        crate::address::seeds_view(r@) == relayer_path(authority@),
{
    path_of(1, authority, None)
}

/// The seeds of the external ledger's proof of `owner`.
pub fn proof_seeds(owner: &[u8; 32]) -> (r: Vec<Vec<u8>>)
    ensures
        crate::address::seeds_view(r@) == proof_path(owner@),
{
    path_of(2, owner, None)
}

/// The seeds of the pool run by `authority`.
pub fn pool_seeds(authority: &[u8; 32]) -> (r: Vec<Vec<u8>>)
    ensures
        crate::address::seeds_view(r@) == pool_path(authority@),
{
    path_of(3, authority, None)
}

/// The seeds of the delegate of `authority` in `pool`.
pub fn delegate_seeds(authority: &[u8; 32], pool: &[u8; 32]) -> (r: Vec<Vec<u8>>)
    ensures
        crate::address::seeds_view(r@) == delegate_path(authority@, pool@),
{
    path_of(4, authority, Some(pool))
}

/// `seeds` followed by the one-byte nonce `bump`: what signs for the sub-account.
pub fn signer_seeds(seeds: Vec<Vec<u8>>, bump: u8) -> (r: Vec<Vec<u8>>)
    ensures
        crate::address::seeds_view(r@) == crate::address::with_bump(
            crate::address::seeds_view(seeds@),
            bump,
        ),
{
    let ghost path = crate::address::seeds_view(seeds@);
    let mut nonce: Vec<u8> = Vec::new();
    nonce.push(bump);
    assert(nonce@ =~= seq![bump]);
    let mut full = seeds;
    full.push(nonce);
    assert(crate::address::seeds_view(full@) =~= crate::address::with_bump(path, bump));
    full
}

} // verus!
