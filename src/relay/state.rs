//! Records of the relay program and their byte layout: a one-byte tag, seven
//! bytes of padding, then the fields in order, integers little-endian.

use crate::bytes::{le_bytes, le_u64, push_key, push_u64, push_zeros, read_key, read_u64, zeros};
use vstd::prelude::*;

verus! {

/// Stored length of an escrow record.
pub const ESCROW_LEN: usize = 112;

/// The commission, per accrual event, of every registered relayer.
pub const RELAYER_COMMISSION: u64 = 1_100;

/// Stored length of a relayer record.
pub const RELAYER_LEN: usize = 88;

/// The kinds of record the relay program stores.
#[derive(Clone, Copy, Debug, PartialEq, Eq, Structural)]
pub enum AccountDiscriminator {
    Escrow,
    Relayer,
}

impl AccountDiscriminator {
    /// The tag byte that leads a stored record of this kind.
    pub open spec fn value(self) -> u8 {
        match self {
            AccountDiscriminator::Escrow => 100,
            AccountDiscriminator::Relayer => 101,
        }
    }

    /// The tag byte that leads a stored record of this kind.
    pub fn to_u8(&self) -> (r: u8)
        ensures
            r == self.value(),
    {
        match self {
            AccountDiscriminator::Escrow => 100,
            AccountDiscriminator::Relayer => 101,
        }
    }

    /// The kind whose tag is `b`, if any.
    pub fn from_u8(b: u8) -> (r: Option<AccountDiscriminator>)
        ensures
            r matches Some(d) ==> d.value() == b,
            r is None ==> b != 100 && b != 101,
    {
        if b == 100 {
            Some(AccountDiscriminator::Escrow)
        } else if b == 101 {
            Some(AccountDiscriminator::Relayer)
        } else {
            None
        }
    }
}

/// A user's custodial sub-account with one relayer.
#[derive(Clone, Copy, Debug)]
pub struct Escrow {
    /// The user this escrow acts for.
    pub authority: [u8; 32],
    /// The nonce of the escrow's derivation path.
    pub bump: u64,
    /// The accrual fingerprint for which commission was last collected.
    pub last_hash: [u8; 32],
    /// The relayer this escrow was opened with.
    pub relayer: [u8; 32],
}

impl Escrow {
    /// Whether `data` has the tag and length of an escrow record.
    pub open spec fn fits(data: Seq<u8>) -> bool {
        data.len() == ESCROW_LEN && data[0] == AccountDiscriminator::Escrow.value()
    }

    /// The fields, laid out after the header.
    pub open spec fn body(self) -> Seq<u8> {
        self.authority@ + le_bytes(self.bump) + self.last_hash@ + self.relayer@
    }

    /// The stored bytes of this record.
    pub open spec fn encoding(self) -> Seq<u8> {
        seq![AccountDiscriminator::Escrow.value()] + zeros(7) + self.body()
    }

    /// Whether this record's fields are the ones stored in `data`.
    pub open spec fn decoded_from(self, data: Seq<u8>) -> bool {
        &&& self.authority@ == data.subrange(8, 40)
        &&& self.bump == le_u64(data.subrange(40, 48))
        &&& self.last_hash@ == data.subrange(48, 80)
        &&& self.relayer@ == data.subrange(80, 112)
    }

    /// Reads an escrow record; `None` unless the tag and length are an escrow's.
    pub fn from_bytes(data: &[u8]) -> (r: Option<Escrow>)
        ensures
            r is Some <==> Self::fits(data@),
            r matches Some(e) ==> e.decoded_from(data@),
    {
        if data.len() != ESCROW_LEN || data[0] != 100 {
            return None;
        }
        Some(
            Escrow {
                authority: read_key(data, 8),
                bump: read_u64(data, 40),
                last_hash: read_key(data, 48),
                relayer: read_key(data, 80),
            },
        )
    }

    /// The stored bytes of this record.
    pub fn to_bytes(&self) -> (r: Vec<u8>)
        ensures
            r@ == self.encoding(),
    {
        let mut out: Vec<u8> = Vec::new();
        out.push(100u8);
        push_zeros(&mut out, 7);
        push_key(&mut out, &self.authority);
        push_u64(&mut out, self.bump);
        push_key(&mut out, &self.last_hash);
        push_key(&mut out, &self.relayer);
        assert(out@ =~= self.encoding());
        out
    }
}

impl Default for Escrow {
    fn default() -> (r: Escrow)
        ensures
            r.authority@ == zeros(32),
            r.bump == 0,
            r.last_hash@ == zeros(32),
            r.relayer@ == zeros(32),
    {
        let r = Escrow { authority: [0u8; 32], bump: 0, last_hash: [0u8; 32], relayer: [0u8; 32] };
        assert(r.authority@ =~= zeros(32));
        assert(r.last_hash@ =~= zeros(32));
        assert(r.relayer@ =~= zeros(32));
        r
    }
}

/// An operator that proxies users into the external ledger.
#[derive(Clone, Copy, Debug)]
pub struct Relayer {
    /// The operator's identity.
    pub authority: [u8; 32],
    /// The nonce of the relayer's derivation path.
    pub bump: u64,
    /// The fixed commission the relayer may collect per accrual event.
    pub commission: u64,
    /// The identity users authorize to mine on their behalf.
    pub miner: [u8; 32],
}

impl Relayer {
    /// Whether `data` has the tag and length of a relayer record.
    pub open spec fn fits(data: Seq<u8>) -> bool {
        data.len() == RELAYER_LEN && data[0] == AccountDiscriminator::Relayer.value()
    }

    /// The fields, laid out after the header.
    pub open spec fn body(self) -> Seq<u8> {
        self.authority@ + le_bytes(self.bump) + le_bytes(self.commission) + self.miner@
    }

    /// The stored bytes of this record.
    pub open spec fn encoding(self) -> Seq<u8> {
        seq![AccountDiscriminator::Relayer.value()] + zeros(7) + self.body()
    }

    /// Whether this record's fields are the ones stored in `data`.
    pub open spec fn decoded_from(self, data: Seq<u8>) -> bool {
        &&& self.authority@ == data.subrange(8, 40)
        &&& self.bump == le_u64(data.subrange(40, 48))
        &&& self.commission == le_u64(data.subrange(48, 56))
        &&& self.miner@ == data.subrange(56, 88)
    }

    /// Reads a relayer record; `None` unless the tag and length are a relayer's.
    pub fn from_bytes(data: &[u8]) -> (r: Option<Relayer>)
        ensures
            r is Some <==> Self::fits(data@),
            r matches Some(e) ==> e.decoded_from(data@),
    {
        if data.len() != RELAYER_LEN || data[0] != 101 {
            return None;
        }
        Some(
            Relayer {
                authority: read_key(data, 8),
                bump: read_u64(data, 40),
                commission: read_u64(data, 48),
                miner: read_key(data, 56),
            },
        )
    }

    /// The stored bytes of this record.
    pub fn to_bytes(&self) -> (r: Vec<u8>)
        ensures
            r@ == self.encoding(),
    {
        let mut out: Vec<u8> = Vec::new();
        out.push(101u8);
        push_zeros(&mut out, 7);
        push_key(&mut out, &self.authority);
        push_u64(&mut out, self.bump);
        push_u64(&mut out, self.commission);
        push_key(&mut out, &self.miner);
        assert(out@ =~= self.encoding());
        out
    }
}

/// Decoding the stored bytes of an escrow gives back its fields.
pub proof fn lemma_escrow_round_trip(e: Escrow, d: Escrow)
    requires
        d.decoded_from(e.encoding()),
    ensures
        Escrow::fits(e.encoding()),
        d.authority@ == e.authority@,
        d.bump == e.bump,
        d.last_hash@ == e.last_hash@,
        d.relayer@ == e.relayer@,
{
    let s = e.encoding();
    crate::bytes::lemma_le_round_trip(e.bump);
    assert(s.subrange(8, 40) =~= e.authority@);
    assert(s.subrange(40, 48) =~= le_bytes(e.bump));
    assert(s.subrange(48, 80) =~= e.last_hash@);
    assert(s.subrange(80, 112) =~= e.relayer@);
}

/// Decoding the stored bytes of a relayer gives back its fields.
pub proof fn lemma_relayer_round_trip(e: Relayer, d: Relayer)
    requires
        d.decoded_from(e.encoding()),
    ensures
        Relayer::fits(e.encoding()),
        d.authority@ == e.authority@,
        d.bump == e.bump,
        d.commission == e.commission,
        d.miner@ == e.miner@,
{
    let s = e.encoding();
    crate::bytes::lemma_le_round_trip(e.bump);
    crate::bytes::lemma_le_round_trip(e.commission);
    assert(s.subrange(8, 40) =~= e.authority@);
    assert(s.subrange(40, 48) =~= le_bytes(e.bump));
    assert(s.subrange(48, 56) =~= le_bytes(e.commission));
    assert(s.subrange(56, 88) =~= e.miner@);
}

} // verus!
