//! Records of the stake program and their byte layout: a one-byte tag, seven
//! bytes of padding, then the fields in order, integers little-endian.

use crate::bytes::{le_bytes, le_u64, push_key, push_u64, push_zeros, read_key, read_u64, zeros};
use vstd::prelude::*;

verus! {

/// Stored length of a delegate record.
pub const DELEGATE_LEN: usize = 80;

/// Stored length of a pool record.
pub const POOL_LEN: usize = 64;

/// The kinds of record the stake program stores.
#[derive(Clone, Copy, Debug, PartialEq, Eq, Structural)]
pub enum AccountDiscriminator {
    Delegate,
    Pool,
}

impl AccountDiscriminator {
    /// The tag byte that leads a stored record of this kind.
    pub open spec fn value(self) -> u8 {
        match self {
            AccountDiscriminator::Delegate => 100,
            AccountDiscriminator::Pool => 101,
        }
    }

    /// The tag byte that leads a stored record of this kind.
    pub fn to_u8(&self) -> (r: u8)
        ensures
            r == self.value(),
    {
        match self {
            AccountDiscriminator::Delegate => 100,
            AccountDiscriminator::Pool => 101,
        }
    }

    /// The kind whose tag is `b`, if any.
    pub fn from_u8(b: u8) -> (r: Option<AccountDiscriminator>)
        ensures
            r matches Some(d) ==> d.value() == b,
            r is None ==> b != 100 && b != 101,
    {
        if b == 100 {
            Some(AccountDiscriminator::Delegate)
        } else if b == 101 {
            Some(AccountDiscriminator::Pool)
        } else {
            None
        }
    }
}

/// One depositor's stake in one pool, counted in shares. Shares exist only as
/// record balances: they are minted into and burned from this record and the
/// pool's supply, and no share token represents them, so they cannot be
/// transferred to another depositor.
#[derive(Clone, Copy, Debug)]
pub struct Delegate {
    /// The depositor.
    pub authority: [u8; 32],
    /// The shares of the pool this depositor holds.
    pub balance: u64,
    /// The pool this delegate belongs to.
    pub pool: [u8; 32],
}

impl Delegate {
    /// Whether `data` has the tag and length of a delegate record.
    pub open spec fn fits(data: Seq<u8>) -> bool {
        data.len() == DELEGATE_LEN && data[0] == AccountDiscriminator::Delegate.value()
    }

    /// The fields, laid out after the header.
    pub open spec fn body(self) -> Seq<u8> {
        self.authority@ + le_bytes(self.balance) + self.pool@
    }

    /// The stored bytes of this record.
    pub open spec fn encoding(self) -> Seq<u8> {
        seq![AccountDiscriminator::Delegate.value()] + zeros(7) + self.body()
    }

    /// Whether this record's fields are the ones stored in `data`.
    pub open spec fn decoded_from(self, data: Seq<u8>) -> bool {
        &&& self.authority@ == data.subrange(8, 40)
        &&& self.balance == le_u64(data.subrange(40, 48))
        &&& self.pool@ == data.subrange(48, 80)
    }

    /// Reads a delegate record; `None` unless the tag and length are a delegate's.
    pub fn from_bytes(data: &[u8]) -> (r: Option<Delegate>)
        ensures
            r is Some <==> Self::fits(data@),
            r matches Some(e) ==> e.decoded_from(data@),
    {
        if data.len() != DELEGATE_LEN || data[0] != 100 {
            return None;
        }
        Some(
            Delegate {
                authority: read_key(data, 8),
                balance: read_u64(data, 40),
                pool: read_key(data, 48),
            },
        )
    }

    /// The stored bytes of this record.
    pub fn to_bytes(&self) -> (r: Vec<u8>)
        ensures
            r@ == self.encoding(),
    {
        let mut out: Vec<u8> = Vec::new();
        out.push(100u8);
        push_zeros(&mut out, 7);
        push_key(&mut out, &self.authority);
        push_u64(&mut out, self.balance);
        push_key(&mut out, &self.pool);
        assert(out@ =~= self.encoding());
        out
    }
}

/// A pooled position in the external ledger, shared by its depositors. Its
/// share supply is a record balance, kept equal to the sum of its delegates'
/// balances; no share token is minted.
#[derive(Clone, Copy, Debug)]
pub struct Pool {
    /// The operator of the pool.
    pub authority: [u8; 32],
    /// The shares outstanding: the sum of the delegates' balances.
    pub balance: u64,
    /// The nonce of the pool's derivation path.
    pub bump: u64,
    /// Non-zero while the pool accepts deposits.
    pub is_open: u64,
}

impl Pool {
    /// Whether `data` has the tag and length of a pool record.
    pub open spec fn fits(data: Seq<u8>) -> bool {
        data.len() == POOL_LEN && data[0] == AccountDiscriminator::Pool.value()
    }

    /// The fields, laid out after the header.
    pub open spec fn body(self) -> Seq<u8> {
        self.authority@ + le_bytes(self.balance) + le_bytes(self.bump) + le_bytes(self.is_open)
    }

    /// The stored bytes of this record.
    pub open spec fn encoding(self) -> Seq<u8> {
        seq![AccountDiscriminator::Pool.value()] + zeros(7) + self.body()
    }

    /// Whether this record's fields are the ones stored in `data`.
    pub open spec fn decoded_from(self, data: Seq<u8>) -> bool {
        &&& self.authority@ == data.subrange(8, 40)
        &&& self.balance == le_u64(data.subrange(40, 48))
        &&& self.bump == le_u64(data.subrange(48, 56))
        &&& self.is_open == le_u64(data.subrange(56, 64))
    }

    /// Reads a pool record; `None` unless the tag and length are a pool's.
    pub fn from_bytes(data: &[u8]) -> (r: Option<Pool>)
        ensures
            r is Some <==> Self::fits(data@),
            r matches Some(e) ==> e.decoded_from(data@),
    {
        if data.len() != POOL_LEN || data[0] != 101 {
            return None;
        }
        Some(
            Pool {
                authority: read_key(data, 8),
                balance: read_u64(data, 40),
                bump: read_u64(data, 48),
                is_open: read_u64(data, 56),
            },
        )
    }

    /// The stored bytes of this record.
    pub fn to_bytes(&self) -> (r: Vec<u8>)
        ensures
            r@ == self.encoding(),
    {
        let mut out: Vec<u8> = Vec::new();
        out.push(101u8);
        push_zeros(&mut out, 7);
        push_key(&mut out, &self.authority);
        push_u64(&mut out, self.balance);
        push_u64(&mut out, self.bump);
        push_u64(&mut out, self.is_open);
        assert(out@ =~= self.encoding());
        out
    }
}

/// Decoding the stored bytes of a delegate gives back its fields.
pub proof fn lemma_delegate_round_trip(e: Delegate, d: Delegate)
    requires
        d.decoded_from(e.encoding()),
    ensures
        Delegate::fits(e.encoding()),
        d.authority@ == e.authority@,
        d.balance == e.balance,
        d.pool@ == e.pool@,
{
    let s = e.encoding();
    crate::bytes::lemma_le_round_trip(e.balance);
    assert(s.subrange(8, 40) =~= e.authority@);
    assert(s.subrange(40, 48) =~= le_bytes(e.balance));
    assert(s.subrange(48, 80) =~= e.pool@);
}

/// Decoding the stored bytes of a pool gives back its fields.
pub proof fn lemma_pool_round_trip(e: Pool, d: Pool)
    requires
        d.decoded_from(e.encoding()),
    ensures
        Pool::fits(e.encoding()),
        d.authority@ == e.authority@,
        d.balance == e.balance,
        d.bump == e.bump,
        d.is_open == e.is_open,
{
    let s = e.encoding();
    crate::bytes::lemma_le_round_trip(e.balance);
    crate::bytes::lemma_le_round_trip(e.bump);
    crate::bytes::lemma_le_round_trip(e.is_open);
    assert(s.subrange(8, 40) =~= e.authority@);
    assert(s.subrange(40, 48) =~= le_bytes(e.balance));
    assert(s.subrange(48, 56) =~= le_bytes(e.bump));
    assert(s.subrange(56, 64) =~= le_bytes(e.is_open));
}

} // verus!
