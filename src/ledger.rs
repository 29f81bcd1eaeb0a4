//! Read-only views of records that the external ledger and the token program
//! own: a miner's proof and a token account.

use crate::bytes::le_u64;
use solana_program::program_pack::Pack;
use vstd::prelude::*;

verus! {

/// Stored length of the ledger's proof record.
pub const PROOF_LEN: usize = 176;

/// The ledger's tag for proof records.
pub const PROOF_TAG: u8 = 102;

/// Stored length of a token account.
pub const TOKEN_ACCOUNT_LEN: usize = 165;

/// What this library reads of a sub-account's position in the external ledger.
#[derive(Clone, Copy, Debug)]
pub struct ProofView {
    /// The sub-account that owns the position.
    pub authority: [u8; 32],
    /// The position's balance, grown by stake and by mining rewards.
    pub balance: u64,
    /// The fingerprint of the most recent reward accrual.
    pub last_hash: [u8; 32],
}

impl ProofView {
    /// Whether `data` has the tag and length of a proof record.
    pub open spec fn fits(data: Seq<u8>) -> bool {
        data.len() == PROOF_LEN && data[0] == PROOF_TAG
    }

    /// Whether these fields are the ones stored in `data`.
    pub open spec fn decoded_from(self, data: Seq<u8>) -> bool {
        &&& self.authority@ == data.subrange(8, 40)
        &&& self.balance == le_u64(data.subrange(40, 48))
        &&& self.last_hash@ == data.subrange(80, 112)
    }

    /// Reads a proof record; `None` unless the tag and length are a proof's.
    pub fn from_bytes(data: &[u8]) -> (r: Option<ProofView>)
        ensures
            r is Some <==> Self::fits(data@),
            r matches Some(p) ==> p.decoded_from(data@),
    {
        if data.len() != PROOF_LEN || data[0] != PROOF_TAG {
            return None;
        }
        read_proof(data)
    }
}

/// Relies on ore_api's `#[repr(C)]` `state::Proof` read by bytemuck's
/// `try_pod_read_unaligned`, which succeeds exactly on `size_of::<Proof>()`
/// (168) bytes: after the 8-byte header, `authority` is at 8, `balance` at 40
/// (little-endian target) and `last_hash` at 80.
#[verifier::external_body]
fn read_proof(data: &[u8]) -> (r: Option<ProofView>)
    requires
        data@.len() >= 8,
    ensures
        r is Some <==> data@.len() == PROOF_LEN,
        r matches Some(p) ==> p.decoded_from(data@),
{
    bytemuck::try_pod_read_unaligned::<ore_api::state::Proof>(&data[8..]).ok().map(
        |p| ProofView { authority: p.authority.to_bytes(), balance: p.balance, last_hash: p.last_hash },
    )
}

/// What this library reads of a token account.
#[derive(Clone, Copy, Debug)]
pub struct TokenAccountView {
    /// The kind of token the account holds.
    pub mint: [u8; 32],
    /// The identity that may move the account's tokens.
    pub owner: [u8; 32],
}

/// Whether the four bytes at `at` are a valid optional-value tag: 0 or 1,
/// little-endian.
pub open spec fn option_tag_ok(data: Seq<u8>, at: int) -> bool {
    &&& (data[at] == 0 || data[at] == 1)
    &&& data[at + 1] == 0
    &&& data[at + 2] == 0
    &&& data[at + 3] == 0
}

/// Whether `data` is an initialized token account: 165 bytes, valid tags for
/// the optional delegate (at 72), native amount (at 109) and close authority
/// (at 129), and a state byte (at 108) of initialized or frozen.
pub open spec fn is_token_account(data: Seq<u8>) -> bool {
    &&& data.len() == TOKEN_ACCOUNT_LEN
    &&& option_tag_ok(data, 72)
    &&& (data[108] == 1 || data[108] == 2)
    &&& option_tag_ok(data, 109)
    &&& option_tag_ok(data, 129)
}

/// Relies on spl_token's `state::Account::unpack`: it accepts exactly the
/// initialized accounts of 165 bytes whose three optional-value tags are valid,
/// and reads the mint from the first 32 bytes and the owner from the next 32.
#[verifier::external_body]
pub(crate) fn unpack_token_account(data: &[u8]) -> (r: Option<TokenAccountView>)
    ensures
        r is Some <==> is_token_account(data@),
        r matches Some(t) ==> t.mint@ == data@.subrange(0, 32) && t.owner@ == data@.subrange(32, 64),
{
    spl_token::state::Account::unpack(data).ok().map(
        |a| TokenAccountView { mint: a.mint.to_bytes(), owner: a.owner.to_bytes() },
    )
}

} // verus!
