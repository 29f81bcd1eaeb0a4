//! Payloads of the stake program: a one-byte operation tag, then a fixed-size
//! argument record.

use crate::bytes::{amount_bytes, le_bytes, le_u64, read_amount};
use crate::account::{meta, meta_is, system_program_meta, AccountMeta, Context, Instruction};
use crate::address::{canonical_address, find_address, no_address};
use crate::seeds::{pool_path, pool_seeds, proof_path, proof_seeds};
use vstd::prelude::*;

verus! {

/// The operations of the stake program.
#[derive(Clone, Copy, Debug, PartialEq, Eq, Structural)]
pub enum StakeInstruction {
    Initialize,
    Open,
    Delegate,
    Withdraw,
    Close,
    SetOpen,
}

impl StakeInstruction {
    /// The tag byte of this operation.
    pub open spec fn value(self) -> u8 {
        match self {
            StakeInstruction::Initialize => 0,
            StakeInstruction::Open => 1,
            StakeInstruction::Delegate => 2,
            StakeInstruction::Withdraw => 3,
            StakeInstruction::Close => 4,
            StakeInstruction::SetOpen => 5,
        }
    }

    /// The tag byte of this operation.
    pub fn to_u8(&self) -> (r: u8)
        ensures
            r == self.value(),
    {
        match self {
            StakeInstruction::Initialize => 0,
            StakeInstruction::Open => 1,
            StakeInstruction::Delegate => 2,
            StakeInstruction::Withdraw => 3,
            StakeInstruction::Close => 4,
            StakeInstruction::SetOpen => 5,
        }
    }

    /// The operation whose tag is `b`, if any.
    pub fn from_u8(b: u8) -> (r: Option<StakeInstruction>)
        ensures
            r matches Some(i) ==> i.value() == b,
            r is None ==> forall|i: StakeInstruction| i.value() != b,
    {
        if b == 0 {
            Some(StakeInstruction::Initialize)
        } else if b == 1 {
            Some(StakeInstruction::Open)
        } else if b == 2 {
            Some(StakeInstruction::Delegate)
        } else if b == 3 {
            Some(StakeInstruction::Withdraw)
        } else if b == 4 {
            Some(StakeInstruction::Close)
        } else if b == 5 {
            Some(StakeInstruction::SetOpen)
        } else {
            None
        }
    }

    /// The tag as a one-byte payload prefix.
    pub fn to_vec(&self) -> (r: Vec<u8>)
        ensures
            r@ == seq![self.value()],
    {
        let mut v: Vec<u8> = Vec::new();
        v.push(self.to_u8());
        assert(v@ =~= seq![self.value()]);
        v
    }
}

/// Arguments of creating a pool: the nonces of the proof's and of the pool's
/// derivation paths, in that order.
pub struct InitializeArgs {
    pub proof_bump: u8,
    pub pool_bump: u8,
}

/// Arguments of opening a delegate: the nonce of its derivation path.
pub struct OpenArgs {
    pub bump: u8,
}

/// Arguments of a deposit: the amount of the staked token.
pub struct DelegateArgs {
    pub amount: u64,
}

/// Arguments of a withdrawal: the number of shares to redeem.
pub struct WithdrawArgs {
    pub amount: u64,
}

/// Arguments of opening or closing a pool to deposits: non-zero opens it.
pub struct SetOpenArgs {
    pub is_open: bool,
}

impl SetOpenArgs {
    /// Reads the arguments; `None` unless `data` is exactly one byte.
    pub fn try_from_bytes(data: &[u8]) -> (r: Option<SetOpenArgs>)
        ensures
            r is Some <==> data@.len() == 1,
            r matches Some(a) ==> a.is_open == (data@[0] != 0),
    {
        if data.len() != 1 {
            return None;
        }
        Some(SetOpenArgs { is_open: data[0] != 0 })
    }

    /// The argument bytes.
    pub fn to_bytes(&self) -> (r: Vec<u8>)
        ensures
            r@ == seq![if self.is_open { 1u8 } else { 0u8 }],
    {
        let mut v: Vec<u8> = Vec::new();
        v.push(if self.is_open { 1u8 } else { 0u8 });
        assert(v@ =~= seq![if self.is_open { 1u8 } else { 0u8 }]);
        v
    }
}

impl InitializeArgs {
    /// Reads the arguments; `None` unless `data` is exactly two bytes.
    pub fn try_from_bytes(data: &[u8]) -> (r: Option<InitializeArgs>)
        ensures
            r is Some <==> data@.len() == 2,
            r matches Some(a) ==> a.proof_bump == data@[0] && a.pool_bump == data@[1],
    {
        if data.len() != 2 {
            return None;
        }
        Some(InitializeArgs { proof_bump: data[0], pool_bump: data[1] })
    }

    /// The argument bytes.
    pub fn to_bytes(&self) -> (r: Vec<u8>)
        ensures
            r@ == seq![self.proof_bump, self.pool_bump],
    {
        let mut v: Vec<u8> = Vec::new();
        v.push(self.proof_bump);
        v.push(self.pool_bump);
        assert(v@ =~= seq![self.proof_bump, self.pool_bump]);
        v
    }
}

impl OpenArgs {
    /// Reads the arguments; `None` unless `data` is exactly one byte.
    pub fn try_from_bytes(data: &[u8]) -> (r: Option<OpenArgs>)
        ensures
            r is Some <==> data@.len() == 1,
            r matches Some(a) ==> a.bump == data@[0],
    {
        if data.len() != 1 {
            return None;
        }
        Some(OpenArgs { bump: data[0] })
    }

    /// The argument bytes.
    pub fn to_bytes(&self) -> (r: Vec<u8>)
        ensures
            r@ == seq![self.bump],
    {
        let mut v: Vec<u8> = Vec::new();
        v.push(self.bump);
        assert(v@ =~= seq![self.bump]);
        v
    }
}

impl DelegateArgs {
    /// Reads the arguments; `None` unless `data` is exactly eight bytes.
    pub fn try_from_bytes(data: &[u8]) -> (r: Option<DelegateArgs>)
        ensures
            r is Some <==> data@.len() == 8,
            r matches Some(a) ==> a.amount == le_u64(data@),
    {
        match read_amount(data) {
            Some(v) => Some(DelegateArgs { amount: v }),
            None => None,
        }
    }

    /// The argument bytes.
    pub fn to_bytes(&self) -> (r: Vec<u8>)
        ensures
            r@ == le_bytes(self.amount),
    {
        amount_bytes(self.amount)
    }
}

impl WithdrawArgs {
    /// Reads the arguments; `None` unless `data` is exactly eight bytes.
    pub fn try_from_bytes(data: &[u8]) -> (r: Option<WithdrawArgs>)
        ensures
            r is Some <==> data@.len() == 8,
            r matches Some(a) ==> a.amount == le_u64(data@),
    {
        match read_amount(data) {
            Some(v) => Some(WithdrawArgs { amount: v }),
            None => None,
        }
    }

    /// The argument bytes.
    pub fn to_bytes(&self) -> (r: Vec<u8>)
        ensures
            r@ == le_bytes(self.amount),
    {
        amount_bytes(self.amount)
    }
}

/// Whether the pool of `authority`, or the pool's proof, has no address: the
/// only case in which [`initialize`] returns `None`.
pub open spec fn pool_unresolved(ctx: Context, authority: Seq<u8>) -> bool {
    no_address(pool_path(authority), ctx.program_id@) || exists|k: Seq<u8>, b: u8|
        canonical_address(pool_path(authority), ctx.program_id@, k, b) && no_address(
            proof_path(k),
            ctx.ledger_program@,
        )
}

/// Builds the creation of a pool run by `signer`, mined by `miner`; the
/// payload carries the canonical nonces of the pool's proof and of the pool.
pub fn initialize(ctx: &Context, signer: [u8; 32], miner: [u8; 32]) -> (r: Option<Instruction>)
    ensures
        r is None <==> pool_unresolved(*ctx, signer@),
        r matches Some(ix) ==> {
            &&& ix.program_id == ctx.program_id
            &&& ix.data@.len() == 3
            &&& ix.data@[0] == StakeInstruction::Initialize.value()
            &&& ix.accounts@.len() == 7
            &&& meta_is(ix.accounts@[0], signer@, true, true)
            &&& meta_is(ix.accounts@[1], miner@, false, false)
            &&& canonical_address(pool_path(signer@), ctx.program_id@, ix.accounts@[2].key@, ix.data@[2])
            &&& !ix.accounts@[2].is_signer && ix.accounts@[2].is_writable
            &&& canonical_address(proof_path(ix.accounts@[2].key@), ctx.ledger_program@, ix.accounts@[3].key@, ix.data@[1])
            &&& meta_is(ix.accounts@[4], crate::address::system_program_id(), false, false)
            &&& meta_is(ix.accounts@[5], ctx.slot_hashes@, false, false)
            &&& meta_is(ix.accounts@[6], ctx.ledger_program@, false, false)
            &&& !ix.accounts@[3].is_signer && ix.accounts@[3].is_writable
        },
{
    let pool = match find_address(pool_seeds(&signer), &ctx.program_id) {
        Some(found) => found,
        None => return None,
    };
    proof {
        crate::address::lemma_canonical_unique(pool_path(signer@), ctx.program_id@, pool.0@, pool.1);
    }
    let proof = match find_address(proof_seeds(&pool.0), &ctx.ledger_program) {
        Some(found) => found,
        None => return None,
    };
    let mut accounts: Vec<AccountMeta> = Vec::new();
    accounts.push(meta(signer, true, true));
    accounts.push(meta(miner, false, false));
    accounts.push(meta(pool.0, false, true));
    accounts.push(meta(proof.0, false, true));
    accounts.push(system_program_meta());
    accounts.push(meta(ctx.slot_hashes, false, false));
    accounts.push(meta(ctx.ledger_program, false, false));
    let mut data = StakeInstruction::Initialize.to_vec();
    data.push(proof.1);
    data.push(pool.1);
    Some(Instruction { program_id: ctx.program_id, accounts, data })
}

} // verus!
