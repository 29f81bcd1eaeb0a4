//! Snapshots of the accounts an operation is handed, and the plan of effects
//! it hands back.

use vstd::prelude::*;

verus! {

/// What an operation sees of one account.
#[derive(Clone, Debug)]
pub struct AccountView {
    /// The account's address.
    pub key: [u8; 32],
    /// The program that owns the account's storage.
    pub owner: [u8; 32],
    /// The account's stored bytes.
    pub data: Vec<u8>,
    /// The account's native balance.
    pub lamports: u64,
    /// Whether the caller signed for this account.
    pub is_signer: bool,
    /// Whether the caller granted write access to this account.
    pub is_writable: bool,
}

/// The identities an operation checks accounts against.
#[derive(Clone, Copy, Debug)]
pub struct Context {
    /// The program running the operation, owner of its records.
    pub program_id: [u8; 32],
    /// The external mining ledger, owner of the proof records.
    pub ledger_program: [u8; 32],
    /// The token program, owner of token accounts.
    pub token_program: [u8; 32],
    /// The mint of the token that is staked.
    pub mint: [u8; 32],
    /// The only identity allowed to register relayers.
    pub admin: [u8; 32],
    /// The external ledger's treasury, source of claimed rewards.
    pub treasury: [u8; 32],
    /// The treasury's token account, which stakes go into and claims come from.
    pub treasury_tokens: [u8; 32],
    /// The host's slot-hashes record, which the ledger reads when it opens a position.
    pub slot_hashes: [u8; 32],
}

/// One call into the external mining ledger. Accounts are given by their
/// position in the operation's account list; the acting identity is always a
/// derived sub-account.
#[derive(Clone, Copy, Debug, PartialEq, Eq, Structural)]
pub enum LedgerCall {
    /// Opens a position for `authority`, mined by `miner`.
    Open { authority: usize, miner: usize },
    /// Moves `amount` from the token account `sender` into `authority`'s position.
    Stake { authority: usize, sender: usize, amount: u64 },
    /// Pays `amount` from `authority`'s position to the token account `beneficiary`.
    Claim { authority: usize, beneficiary: usize, amount: u64 },
    /// Closes `authority`'s position.
    Close { authority: usize },
    /// Hands the signing right over `authority`'s position to `miner`.
    UpdateMiner { authority: usize, miner: usize },
}

/// One effect of an operation, carried out by the host in plan order.
#[derive(Debug)]
pub enum Action {
    /// Allocates `space` bytes at the derived address `account`, owned by
    /// `owner` and paid for by the signer, signed with the derivation `seeds`.
    Allocate { account: usize, owner: [u8; 32], space: usize, seeds: Vec<Vec<u8>> },
    /// Replaces the stored bytes of `account`.
    Write { account: usize, data: Vec<u8> },
    /// Moves `amount` tokens from `from` to `to` on the signer's authority.
    Transfer { from: usize, to: usize, amount: u64 },
    /// Moves `amount` native units from the program-owned `from` to `to`.
    Pay { from: usize, to: usize, amount: u64 },
    /// Issues `call`, signed as the sub-account whose derivation is `seeds`.
    Invoke { call: LedgerCall, seeds: Vec<Vec<u8>> },
    /// Zeroes the storage of `account` and returns its native balance to `recipient`.
    Close { account: usize, recipient: usize },
}

/// Whether `a` writes `bytes` to account `account`.
pub open spec fn is_write(a: Action, account: usize, bytes: Seq<u8>) -> bool {
    a matches Action::Write { account: i, data } && i == account && data@ == bytes
}

/// Whether `a` issues `call` signed with the derivation `seeds`.
pub open spec fn is_invoke(a: Action, call: LedgerCall, seeds: Seq<Seq<u8>>) -> bool {
    a matches Action::Invoke { call: c, seeds: s } && c == call && crate::address::seeds_view(s@)
        == seeds
}

/// Whether `a` allocates `space` bytes at `account` for `owner`, signed with `seeds`.
pub open spec fn is_allocate(a: Action, account: usize, owner: Seq<u8>, space: usize, seeds: Seq<Seq<u8>>) -> bool {
    a matches Action::Allocate { account: i, owner: o, space: n, seeds: s } && i == account && o@
        == owner && n == space && crate::address::seeds_view(s@) == seeds
}

/// One account an instruction names, with the rights it is passed with.
#[derive(Clone, Copy, Debug)]
pub struct AccountMeta {
    pub key: [u8; 32],
    pub is_signer: bool,
    pub is_writable: bool,
}

/// An instruction for a program: the accounts it names, in order, and its payload.
#[derive(Clone, Debug)]
pub struct Instruction {
    pub program_id: [u8; 32],
    pub accounts: Vec<AccountMeta>,
    pub data: Vec<u8>,
}

/// Whether `m` names `key` with the given rights.
pub open spec fn meta_is(m: AccountMeta, key: Seq<u8>, is_signer: bool, is_writable: bool) -> bool {
    m.key@ == key && m.is_signer == is_signer && m.is_writable == is_writable
}

/// Names `key` with the given rights.
pub fn meta(key: [u8; 32], is_signer: bool, is_writable: bool) -> (r: AccountMeta)
    ensures
        meta_is(r, key@, is_signer, is_writable),
{
    AccountMeta { key, is_signer, is_writable }
}

/// Names the system program, read-only and not signing.
pub fn system_program_meta() -> (r: AccountMeta)
    ensures
        meta_is(r, crate::address::system_program_id(), false, false),
{
    let r = AccountMeta { key: [0u8; 32], is_signer: false, is_writable: false };
    assert(r.key@ =~= crate::address::system_program_id());
    r
}

} // verus!
