//! Payloads of the relay program: a one-byte operation tag, then a
//! fixed-size argument record.

use crate::bytes::{amount_bytes, le_bytes, le_u64, push_u64, read_amount, read_u64};
use crate::account::{meta, meta_is, system_program_meta, AccountMeta, Context, Instruction};
use crate::address::{canonical_address, find_address, no_address};
use crate::seeds::{escrow_path, escrow_seeds, proof_path, proof_seeds};
use vstd::prelude::*;

verus! {

/// The operations of the relay program.
#[derive(Clone, Copy, Debug, PartialEq, Eq, Structural)]
pub enum RelayInstruction {
    Claim,
    CloseEscrow,
    OpenEscrow,
    Stake,
    OpenRelayer,
    Collect,
    UpdateMiner,
}

impl RelayInstruction {
    /// The tag byte of this operation.
    pub open spec fn value(self) -> u8 {
        match self {
            RelayInstruction::Claim => 0,
            RelayInstruction::CloseEscrow => 1,
            RelayInstruction::OpenEscrow => 2,
            RelayInstruction::Stake => 3,
            RelayInstruction::OpenRelayer => 100,
            RelayInstruction::Collect => 101,
            RelayInstruction::UpdateMiner => 102,
        }
    }

    /// The tag byte of this operation.
    pub fn to_u8(&self) -> (r: u8)
        ensures
            r == self.value(),
    {
        match self {
            RelayInstruction::Claim => 0,
            RelayInstruction::CloseEscrow => 1,
            RelayInstruction::OpenEscrow => 2,
            RelayInstruction::Stake => 3,
            RelayInstruction::OpenRelayer => 100,
            RelayInstruction::Collect => 101,
            RelayInstruction::UpdateMiner => 102,
        }
    }

    /// The operation whose tag is `b`, if any.
    pub fn from_u8(b: u8) -> (r: Option<RelayInstruction>)
        ensures
            r matches Some(i) ==> i.value() == b,
            r is None ==> forall|i: RelayInstruction| i.value() != b,
    {
        if b == 0 {
            Some(RelayInstruction::Claim)
        } else if b == 1 {
            Some(RelayInstruction::CloseEscrow)
        } else if b == 2 {
            Some(RelayInstruction::OpenEscrow)
        } else if b == 3 {
            Some(RelayInstruction::Stake)
        } else if b == 100 {
            Some(RelayInstruction::OpenRelayer)
        } else if b == 101 {
            Some(RelayInstruction::Collect)
        } else if b == 102 {
            Some(RelayInstruction::UpdateMiner)
        } else {
            None
        }
    }

    /// The tag as a one-byte payload prefix.
    pub fn to_vec(&self) -> (r: Vec<u8>)
        ensures
            r@ == seq![self.value()],
    {
        let mut v: Vec<u8> = Vec::new();
        v.push(self.to_u8());
        assert(v@ =~= seq![self.value()]);
        v
    }
}

/// Arguments of a claim: the amount to pay out.
pub struct ClaimArgs {
    pub amount: u64,
}

/// Arguments of a commission collection: the native fee owed to the miner.
pub struct CollectArgs {
    pub fee: u64,
}

/// Arguments of a stake: the amount to stake.
pub struct StakeArgs {
    pub amount: u64,
}

/// Arguments of opening an escrow: the nonces of the escrow's and of its
/// proof's derivation paths.
pub struct OpenEscrowArgs {
    pub escrow_bump: u8,
    pub proof_bump: u8,
}

/// Arguments of registering a relayer: the nonce of its derivation path.
pub struct OpenRelayerArgs {
    pub bump: u8,
}

impl ClaimArgs {
    /// Reads the arguments; `None` unless `data` is exactly eight bytes.
    pub fn try_from_bytes(data: &[u8]) -> (r: Option<ClaimArgs>)
        ensures
            r is Some <==> data@.len() == 8,
            r matches Some(a) ==> a.amount == le_u64(data@),
    {
        match read_amount(data) {
            Some(v) => Some(ClaimArgs { amount: v }),
            None => None,
        }
    }

    /// The argument bytes.
    pub fn to_bytes(&self) -> (r: Vec<u8>)
        ensures
            r@ == le_bytes(self.amount),
    {
        amount_bytes(self.amount)
    }
}

impl CollectArgs {
    /// Reads the arguments; `None` unless `data` is exactly eight bytes.
    pub fn try_from_bytes(data: &[u8]) -> (r: Option<CollectArgs>)
        ensures
            r is Some <==> data@.len() == 8,
            r matches Some(a) ==> a.fee == le_u64(data@),
    {
        match read_amount(data) {
            Some(v) => Some(CollectArgs { fee: v }),
            None => None,
        }
    }

    /// The argument bytes.
    pub fn to_bytes(&self) -> (r: Vec<u8>)
        ensures
            r@ == le_bytes(self.fee),
    {
        amount_bytes(self.fee)
    }
}

impl StakeArgs {
    /// Reads the arguments; `None` unless `data` is exactly eight bytes.
    pub fn try_from_bytes(data: &[u8]) -> (r: Option<StakeArgs>)
        ensures
            r is Some <==> data@.len() == 8,
            r matches Some(a) ==> a.amount == le_u64(data@),
    {
        match read_amount(data) {
            Some(v) => Some(StakeArgs { amount: v }),
            None => None,
        }
    }

    /// The argument bytes.
    pub fn to_bytes(&self) -> (r: Vec<u8>)
        ensures
            r@ == le_bytes(self.amount),
    {
        amount_bytes(self.amount)
    }
}

impl OpenEscrowArgs {
    /// Reads the arguments; `None` unless `data` is exactly two bytes.
    pub fn try_from_bytes(data: &[u8]) -> (r: Option<OpenEscrowArgs>)
        ensures
            r is Some <==> data@.len() == 2,
            r matches Some(a) ==> a.escrow_bump == data@[0] && a.proof_bump == data@[1],
    {
        if data.len() != 2 {
            return None;
        }
        Some(OpenEscrowArgs { escrow_bump: data[0], proof_bump: data[1] })
    }

    /// The argument bytes.
    pub fn to_bytes(&self) -> (r: Vec<u8>)
        ensures
            r@ == seq![self.escrow_bump, self.proof_bump],
    {
        let mut v: Vec<u8> = Vec::new();
        v.push(self.escrow_bump);
        v.push(self.proof_bump);
        assert(v@ =~= seq![self.escrow_bump, self.proof_bump]);
        v
    }
}

impl OpenRelayerArgs {
    /// Reads the arguments; `None` unless `data` is exactly one byte.
    pub fn try_from_bytes(data: &[u8]) -> (r: Option<OpenRelayerArgs>)
        ensures
            r is Some <==> data@.len() == 1,
            r matches Some(a) ==> a.bump == data@[0],
    {
        if data.len() != 1 {
            return None;
        }
        Some(OpenRelayerArgs { bump: data[0] })
    }

    /// The argument bytes.
    pub fn to_bytes(&self) -> (r: Vec<u8>)
        ensures
            r@ == seq![self.bump],
    {
        let mut v: Vec<u8> = Vec::new();
        v.push(self.bump);
        assert(v@ =~= seq![self.bump]);
        v
    }
}

/// Whether `m` names, writable and not signing, the canonical address of
/// `seeds` for `program_id`.
pub open spec fn canonical_meta(m: AccountMeta, seeds: Seq<Seq<u8>>, program_id: Seq<u8>) -> bool {
    &&& exists|b: u8| canonical_address(seeds, program_id, m.key@, b)
    &&& !m.is_signer
    &&& m.is_writable
}

/// Whether the escrow of `authority` with `relayer`, or the escrow's proof,
/// has no address: the only case in which a builder returns `None`.
pub open spec fn escrow_unresolved(ctx: Context, authority: Seq<u8>, relayer: Seq<u8>) -> bool {
    no_address(escrow_path(authority, relayer), ctx.program_id@) || exists|k: Seq<u8>, b: u8|
        canonical_address(escrow_path(authority, relayer), ctx.program_id@, k, b) && no_address(
            proof_path(k),
            ctx.ledger_program@,
        )
}

/// A payload: the tag of `op` followed by the eight bytes of `v`.
fn tagged_amount(op: RelayInstruction, v: u64) -> (r: Vec<u8>)
    ensures
        r@ == seq![op.value()] + le_bytes(v),
{
    let mut data = op.to_vec();
    push_u64(&mut data, v);
    data
}

/// The canonical escrow of `authority` with `relayer` and the canonical proof
/// of that escrow, with their nonces, if both have addresses.
fn escrow_and_proof(ctx: &Context, authority: &[u8; 32], relayer: &[u8; 32]) -> (r: Option<(([u8; 32], u8), ([u8; 32], u8))>)
    ensures
        r is None <==> escrow_unresolved(*ctx, authority@, relayer@),
        r matches Some(found) ==> {
            &&& canonical_address(escrow_path(authority@, relayer@), ctx.program_id@, found.0.0@, found.0.1)
            &&& canonical_address(proof_path(found.0.0@), ctx.ledger_program@, found.1.0@, found.1.1)
        },
{
    let escrow = match find_address(escrow_seeds(authority, relayer), &ctx.program_id) {
        Some(found) => found,
        None => return None,
    };
    proof {
        crate::address::lemma_canonical_unique(escrow_path(authority@, relayer@), ctx.program_id@, escrow.0@, escrow.1);
    }
    let proof = match find_address(proof_seeds(&escrow.0), &ctx.ledger_program) {
        Some(found) => found,
        None => return None,
    };
    Some((escrow, proof))
}

/// Builds a claim of `amount` from the escrow of `signer` with `relayer` to
/// the token account `beneficiary`.
pub fn claim(ctx: &Context, signer: [u8; 32], beneficiary: [u8; 32], relayer: [u8; 32], amount: u64) -> (r: Option<Instruction>)
    ensures
        r is None <==> escrow_unresolved(*ctx, signer@, relayer@),
        r matches Some(ix) ==> {
            &&& ix.program_id == ctx.program_id
            &&& ix.data@ == seq![RelayInstruction::Claim.value()] + le_bytes(amount)
            &&& ix.accounts@.len() == 8
            &&& meta_is(ix.accounts@[0], signer@, true, true)
            &&& meta_is(ix.accounts@[1], beneficiary@, false, true)
            &&& canonical_meta(ix.accounts@[2], escrow_path(signer@, relayer@), ctx.program_id@)
            &&& canonical_meta(ix.accounts@[3], proof_path(ix.accounts@[2].key@), ctx.ledger_program@)
            &&& meta_is(ix.accounts@[4], ctx.treasury@, false, false)
            &&& meta_is(ix.accounts@[5], ctx.treasury_tokens@, false, true)
            &&& meta_is(ix.accounts@[6], ctx.ledger_program@, false, false)
            &&& meta_is(ix.accounts@[7], ctx.token_program@, false, false)
        },
{
    let (escrow, proof) = match escrow_and_proof(ctx, &signer, &relayer) {
        Some(found) => found,
        None => return None,
    };
    let mut accounts: Vec<AccountMeta> = Vec::new();
    accounts.push(meta(signer, true, true));
    accounts.push(meta(beneficiary, false, true));
    accounts.push(meta(escrow.0, false, true));
    accounts.push(meta(proof.0, false, true));
    accounts.push(meta(ctx.treasury, false, false));
    accounts.push(meta(ctx.treasury_tokens, false, true));
    accounts.push(meta(ctx.ledger_program, false, false));
    accounts.push(meta(ctx.token_program, false, false));
    Some(Instruction {
        program_id: ctx.program_id,
        accounts,
        data: tagged_amount(RelayInstruction::Claim, amount),
    })
}

/// Builds the collection, by the relayer's miner `signer`, of the commission
/// from the escrow of `escrow_authority` with `relayer`, paid to `beneficiary`,
/// with a native fee of `fee` for the miner.
pub fn collect(ctx: &Context, signer: [u8; 32], escrow_authority: [u8; 32], relayer: [u8; 32], beneficiary: [u8; 32], fee: u64) -> (r: Option<Instruction>)
    ensures
        r is None <==> escrow_unresolved(*ctx, escrow_authority@, relayer@),
        r matches Some(ix) ==> {
            &&& ix.program_id == ctx.program_id
            &&& ix.data@ == seq![RelayInstruction::Collect.value()] + le_bytes(fee)
            &&& ix.accounts@.len() == 10
            &&& meta_is(ix.accounts@[0], signer@, true, true)
            &&& meta_is(ix.accounts@[1], beneficiary@, false, true)
            &&& canonical_meta(ix.accounts@[2], escrow_path(escrow_authority@, relayer@), ctx.program_id@)
            &&& canonical_meta(ix.accounts@[3], proof_path(ix.accounts@[2].key@), ctx.ledger_program@)
            &&& meta_is(ix.accounts@[4], relayer@, false, false)
            &&& meta_is(ix.accounts@[5], ctx.treasury@, false, false)
            &&& meta_is(ix.accounts@[6], ctx.treasury_tokens@, false, true)
            &&& meta_is(ix.accounts@[7], crate::address::system_program_id(), false, false)
            &&& meta_is(ix.accounts@[8], ctx.ledger_program@, false, false)
            &&& meta_is(ix.accounts@[9], ctx.token_program@, false, false)
        },
{
    let (escrow, proof) = match escrow_and_proof(ctx, &escrow_authority, &relayer) {
        Some(found) => found,
        None => return None,
    };
    let mut accounts: Vec<AccountMeta> = Vec::new();
    accounts.push(meta(signer, true, true));
    accounts.push(meta(beneficiary, false, true));
    accounts.push(meta(escrow.0, false, true));
    accounts.push(meta(proof.0, false, true));
    accounts.push(meta(relayer, false, false));
    accounts.push(meta(ctx.treasury, false, false));
    accounts.push(meta(ctx.treasury_tokens, false, true));
    accounts.push(system_program_meta());
    accounts.push(meta(ctx.ledger_program, false, false));
    accounts.push(meta(ctx.token_program, false, false));
    Some(Instruction {
        program_id: ctx.program_id,
        accounts,
        data: tagged_amount(RelayInstruction::Collect, fee),
    })
}

/// Builds a stake of `amount` from the user's token account `sender` into the
/// escrow of `signer` with `relayer`, through the escrow's token account
/// `escrow_tokens`.
pub fn stake(ctx: &Context, signer: [u8; 32], relayer: [u8; 32], escrow_tokens: [u8; 32], sender: [u8; 32], amount: u64) -> (r: Option<Instruction>)
    ensures
        r is None <==> escrow_unresolved(*ctx, signer@, relayer@),
        r matches Some(ix) ==> {
            &&& ix.program_id == ctx.program_id
            &&& ix.data@ == seq![RelayInstruction::Stake.value()] + le_bytes(amount)
            &&& ix.accounts@.len() == 8
            &&& meta_is(ix.accounts@[0], signer@, true, true)
            &&& canonical_meta(ix.accounts@[1], escrow_path(signer@, relayer@), ctx.program_id@)
            &&& meta_is(ix.accounts@[2], escrow_tokens@, false, true)
            &&& canonical_meta(ix.accounts@[3], proof_path(ix.accounts@[1].key@), ctx.ledger_program@)
            &&& meta_is(ix.accounts@[4], sender@, false, true)
            &&& meta_is(ix.accounts@[5], ctx.treasury_tokens@, false, true)
            &&& meta_is(ix.accounts@[6], ctx.ledger_program@, false, false)
            &&& meta_is(ix.accounts@[7], ctx.token_program@, false, false)
        },
{
    let (escrow, proof) = match escrow_and_proof(ctx, &signer, &relayer) {
        Some(found) => found,
        None => return None,
    };
    let mut accounts: Vec<AccountMeta> = Vec::new();
    accounts.push(meta(signer, true, true));
    accounts.push(meta(escrow.0, false, true));
    accounts.push(meta(escrow_tokens, false, true));
    accounts.push(meta(proof.0, false, true));
    accounts.push(meta(sender, false, true));
    accounts.push(meta(ctx.treasury_tokens, false, true));
    accounts.push(meta(ctx.ledger_program, false, false));
    accounts.push(meta(ctx.token_program, false, false));
    Some(Instruction {
        program_id: ctx.program_id,
        accounts,
        data: tagged_amount(RelayInstruction::Stake, amount),
    })
}

/// Builds the opening of an escrow for `signer` with `relayer`, mined by the
/// relayer's `miner`; the payload carries the canonical nonces of the escrow
/// and of its proof.
pub fn open_escrow(ctx: &Context, signer: [u8; 32], miner: [u8; 32], relayer: [u8; 32]) -> (r: Option<Instruction>)
    ensures
        r is None <==> escrow_unresolved(*ctx, signer@, relayer@),
        r matches Some(ix) ==> {
            &&& ix.program_id == ctx.program_id
            &&& ix.data@.len() == 3
            &&& ix.data@[0] == RelayInstruction::OpenEscrow.value()
            &&& ix.accounts@.len() == 8
            &&& meta_is(ix.accounts@[0], signer@, true, true)
            &&& meta_is(ix.accounts@[1], miner@, true, false)
            &&& meta_is(ix.accounts@[5], crate::address::system_program_id(), false, false)
            &&& meta_is(ix.accounts@[6], ctx.slot_hashes@, false, false)
            &&& meta_is(ix.accounts@[7], ctx.ledger_program@, false, false)
            &&& canonical_address(escrow_path(signer@, relayer@), ctx.program_id@, ix.accounts@[2].key@, ix.data@[1])
            &&& canonical_meta(ix.accounts@[2], escrow_path(signer@, relayer@), ctx.program_id@)
            &&& canonical_address(proof_path(ix.accounts@[2].key@), ctx.ledger_program@, ix.accounts@[3].key@, ix.data@[2])
            &&& canonical_meta(ix.accounts@[3], proof_path(ix.accounts@[2].key@), ctx.ledger_program@)
            &&& meta_is(ix.accounts@[4], relayer@, false, false)
        },
{
    let (escrow, proof) = match escrow_and_proof(ctx, &signer, &relayer) {
        Some(found) => found,
        None => return None,
    };
    let mut accounts: Vec<AccountMeta> = Vec::new();
    accounts.push(meta(signer, true, true));
    accounts.push(meta(miner, true, false));
    accounts.push(meta(escrow.0, false, true));
    accounts.push(meta(proof.0, false, true));
    accounts.push(meta(relayer, false, false));
    accounts.push(system_program_meta());
    accounts.push(meta(ctx.slot_hashes, false, false));
    accounts.push(meta(ctx.ledger_program, false, false));
    let mut data = RelayInstruction::OpenEscrow.to_vec();
    data.push(escrow.1);
    data.push(proof.1);
    Some(Instruction { program_id: ctx.program_id, accounts, data })
}

} // verus!
