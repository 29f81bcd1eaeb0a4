//! The relay program's operations. Each checks its accounts and arguments, then
//! returns the plan of record writes and external ledger calls to carry out.
//! The plan is empty of effects on failure: nothing is written.

use crate::account::{is_allocate, is_invoke, is_write, Action, AccountView, Context, LedgerCall};
use crate::address::{seeds_view, with_bump};
use crate::bytes::{le_u64, zeros};
use crate::error::{LoadError, RelayError};
use crate::loaders::{
    escrow_check, fresh_check, load_any_escrow, load_escrow, load_proof, load_relayer,
    load_signer, load_token_account, load_uninitialized_pda, proof_check, relayer_check,
    same_outcome, signer_check, token_check,
};
use crate::relay::instruction::{
    ClaimArgs, CollectArgs, OpenEscrowArgs, OpenRelayerArgs, RelayInstruction, StakeArgs,
};
use crate::relay::state::{Escrow, Relayer, ESCROW_LEN, RELAYER_COMMISSION, RELAYER_LEN};
use crate::seeds::{escrow_path, escrow_seeds, proof_path, proof_seeds, relayer_path, relayer_seeds, signer_seeds};
use vstd::prelude::*;

verus! {

/// A loader failure as a failure of the relay program.
pub open spec fn lifted(r: Result<(), LoadError>) -> Result<(), RelayError> {
    match r {
        Ok(_) => Ok(()),
        Err(e) => Err(RelayError::Load(e)),
    }
}

/// `first`'s failure if it fails, else `second`.
pub open spec fn then(first: Result<(), RelayError>, second: Result<(), RelayError>) -> Result<(), RelayError> {
    if first is Err {
        first
    } else {
        second
    }
}

fn lift<T>(r: Result<T, LoadError>) -> (o: Result<T, RelayError>)
    ensures
        match r {
            Ok(v) => o == Ok::<T, RelayError>(v),
            Err(e) => o == Err::<T, RelayError>(RelayError::Load(e)),
        },
{
    match r {
        Ok(v) => Ok(v),
        Err(e) => Err(RelayError::Load(e)),
    }
}

/// The seeds that sign for the escrow stored as `data`: its path and nonce.
pub open spec fn escrow_signer(data: Seq<u8>) -> Seq<Seq<u8>> {
    with_bump(
        escrow_path(data.subrange(8, 40), data.subrange(80, 112)),
        le_u64(data.subrange(40, 48)) as u8,
    )
}

fn escrow_signer_seeds(e: &Escrow, data: Ghost<Seq<u8>>) -> (r: Vec<Vec<u8>>)
    requires
        e.decoded_from(data@),
    ensures
        seeds_view(r@) == escrow_signer(data@),
{
    signer_seeds(escrow_seeds(&e.authority, &e.relayer), e.bump as u8)
}

/// The checks of a claim, in order. Accounts: the user (signer), the
/// beneficiary token account, the user's escrow, the escrow's proof.
pub open spec fn claim_check(ctx: Context, accounts: Seq<AccountView>, data: Seq<u8>) -> Result<(), RelayError> {
    if data.len() != 8 {
        Err(RelayError::InvalidInstruction)
    } else if accounts.len() < 4 {
        Err(RelayError::NotEnoughAccounts)
    } else {
        then(
            lifted(signer_check(accounts[0])),
            then(
                lifted(token_check(accounts[1], ctx.token_program@, None, ctx.mint@, true)),
                then(
                    lifted(escrow_check(accounts[2], ctx.program_id@, Some(accounts[0].key@), true)),
                    lifted(proof_check(accounts[3], ctx.ledger_program@, accounts[2].key@, true)),
                ),
            ),
        )
    }
}

/// The effects of a successful claim.
pub open spec fn claim_effects(accounts: Seq<AccountView>, data: Seq<u8>, plan: Seq<Action>) -> bool {
    &&& plan.len() == 1
    &&& is_invoke(
        plan[0],
        LedgerCall::Claim { authority: 2, beneficiary: 1, amount: le_u64(data) },
        escrow_signer(accounts[2].data@),
    )
}

/// Claims from the user's escrow position to a beneficiary. The amount is not
/// checked here against the position: the external ledger refuses a claim
/// beyond its balance, and that refusal aborts the whole operation.
pub fn process_claim(ctx: &Context, accounts: &[AccountView], data: &[u8]) -> (r: Result<Vec<Action>, RelayError>)
    ensures
        same_outcome(r, claim_check(*ctx, accounts@, data@)),
        r matches Ok(plan) ==> claim_effects(accounts@, data@, plan@),
{
    let args = match ClaimArgs::try_from_bytes(data) {
        Some(a) => a,
        None => return Err(RelayError::InvalidInstruction),
    };
    if accounts.len() < 4 {
        return Err(RelayError::NotEnoughAccounts);
    }
    let signer = &accounts[0];
    lift(load_signer(signer))?;
    lift(load_token_account(&accounts[1], &ctx.token_program, None, &ctx.mint, true))?;
    let escrow = lift(load_escrow(&accounts[2], &ctx.program_id, &signer.key, true))?;
    lift(load_proof(&accounts[3], &ctx.ledger_program, &accounts[2].key, true))?;
    let seeds = escrow_signer_seeds(&escrow, Ghost(accounts@[2].data@));
    let mut plan: Vec<Action> = Vec::new();
    plan.push(
        Action::Invoke {
            call: LedgerCall::Claim { authority: 2, beneficiary: 1, amount: args.amount },
            seeds,
        },
    );
    Ok(plan)
}

/// The checks of a stake. Accounts: the user (signer), the user's escrow, the
/// escrow's token account, the escrow's proof, the user's source token account.
pub open spec fn stake_check(ctx: Context, accounts: Seq<AccountView>, data: Seq<u8>) -> Result<(), RelayError> {
    if data.len() != 8 {
        Err(RelayError::InvalidInstruction)
    } else if accounts.len() < 5 {
        Err(RelayError::NotEnoughAccounts)
    } else {
        then(
            lifted(signer_check(accounts[0])),
            then(
                lifted(escrow_check(accounts[1], ctx.program_id@, Some(accounts[0].key@), true)),
                then(
                    lifted(token_check(accounts[2], ctx.token_program@, Some(accounts[1].key@), ctx.mint@, true)),
                    then(
                        lifted(proof_check(accounts[3], ctx.ledger_program@, accounts[1].key@, true)),
                        lifted(token_check(accounts[4], ctx.token_program@, Some(accounts[0].key@), ctx.mint@, true)),
                    ),
                ),
            ),
        )
    }
}

/// The effects of a successful stake.
pub open spec fn stake_effects(accounts: Seq<AccountView>, data: Seq<u8>, plan: Seq<Action>) -> bool {
    &&& plan.len() == 2
    &&& plan[0] == Action::Transfer { from: 4, to: 2, amount: le_u64(data) }
    &&& is_invoke(
        plan[1],
        LedgerCall::Stake { authority: 1, sender: 2, amount: le_u64(data) },
        escrow_signer(accounts[1].data@),
    )
}

/// Stakes into the user's escrow position: moves the amount from the user's
/// token account into the escrow's, then stakes it from there.
pub fn process_stake(ctx: &Context, accounts: &[AccountView], data: &[u8]) -> (r: Result<Vec<Action>, RelayError>)
    ensures
        same_outcome(r, stake_check(*ctx, accounts@, data@)),
        r matches Ok(plan) ==> stake_effects(accounts@, data@, plan@),
{
    let args = match StakeArgs::try_from_bytes(data) {
        Some(a) => a,
        None => return Err(RelayError::InvalidInstruction),
    };
    if accounts.len() < 5 {
        return Err(RelayError::NotEnoughAccounts);
    }
    let signer = &accounts[0];
    lift(load_signer(signer))?;
    let escrow = lift(load_escrow(&accounts[1], &ctx.program_id, &signer.key, true))?;
    lift(load_token_account(&accounts[2], &ctx.token_program, Some(&accounts[1].key), &ctx.mint, true))?;
    lift(load_proof(&accounts[3], &ctx.ledger_program, &accounts[1].key, true))?;
    lift(load_token_account(&accounts[4], &ctx.token_program, Some(&signer.key), &ctx.mint, true))?;
    let seeds = escrow_signer_seeds(&escrow, Ghost(accounts@[1].data@));
    let mut plan: Vec<Action> = Vec::new();
    plan.push(Action::Transfer { from: 4, to: 2, amount: args.amount });
    plan.push(
        Action::Invoke {
            call: LedgerCall::Stake { authority: 1, sender: 2, amount: args.amount },
            seeds,
        },
    );
    Ok(plan)
}

/// The checks of closing an escrow. Accounts: the user (signer), the user's
/// escrow, the escrow's proof, whose balance must be zero.
pub open spec fn close_escrow_check(ctx: Context, accounts: Seq<AccountView>) -> Result<(), RelayError> {
    if accounts.len() < 3 {
        Err(RelayError::NotEnoughAccounts)
    } else {
        then(
            lifted(signer_check(accounts[0])),
            then(
                lifted(escrow_check(accounts[1], ctx.program_id@, Some(accounts[0].key@), true)),
                then(
                    lifted(proof_check(accounts[2], ctx.ledger_program@, accounts[1].key@, true)),
                    if le_u64(accounts[2].data@.subrange(40, 48)) != 0 {
                        Err(RelayError::BalanceNotZero)
                    } else {
                        Ok(())
                    },
                ),
            ),
        )
    }
}

/// The effects of a successful escrow closing.
pub open spec fn close_escrow_effects(accounts: Seq<AccountView>, plan: Seq<Action>) -> bool {
    &&& plan.len() == 2
    &&& is_invoke(plan[0], LedgerCall::Close { authority: 1 }, escrow_signer(accounts[1].data@))
    &&& plan[1] == Action::Close { account: 1, recipient: 0 }
}

/// Closing an escrow whose external position still holds a balance is
/// refused with `BalanceNotZero`, once the accounts pass their checks.
pub proof fn lemma_close_escrow_with_balance_refused(ctx: Context, accounts: Seq<AccountView>)
    requires
        accounts.len() >= 3,
        signer_check(accounts[0]) is Ok,
        escrow_check(accounts[1], ctx.program_id@, Some(accounts[0].key@), true) is Ok,
        proof_check(accounts[2], ctx.ledger_program@, accounts[1].key@, true) is Ok,
        le_u64(accounts[2].data@.subrange(40, 48)) != 0,
    ensures
        close_escrow_check(ctx, accounts) == Err::<(), RelayError>(RelayError::BalanceNotZero),
{
}

/// Closes the user's escrow: closes its external position, which must hold
/// nothing, then zeroes the escrow's storage and returns its native balance,
/// including what the position's closing returned to it, to the user.
pub fn process_close_escrow(ctx: &Context, accounts: &[AccountView], data: &[u8]) -> (r: Result<Vec<Action>, RelayError>)
    ensures
        same_outcome(r, close_escrow_check(*ctx, accounts@)),
        r matches Ok(plan) ==> close_escrow_effects(accounts@, plan@),
{
    if accounts.len() < 3 {
        return Err(RelayError::NotEnoughAccounts);
    }
    let signer = &accounts[0];
    lift(load_signer(signer))?;
    let escrow = lift(load_escrow(&accounts[1], &ctx.program_id, &signer.key, true))?;
    let proof = lift(load_proof(&accounts[2], &ctx.ledger_program, &accounts[1].key, true))?;
    if proof.balance != 0 {
        return Err(RelayError::BalanceNotZero);
    }
    let seeds = escrow_signer_seeds(&escrow, Ghost(accounts@[1].data@));
    let mut plan: Vec<Action> = Vec::new();
    plan.push(Action::Invoke { call: LedgerCall::Close { authority: 1 }, seeds });
    plan.push(Action::Close { account: 1, recipient: 0 });
    Ok(plan)
}

/// The checks of handing an escrow's mining right to a new miner. Accounts:
/// the user (signer), the user's escrow, the new miner, the escrow's proof.
pub open spec fn update_miner_check(ctx: Context, accounts: Seq<AccountView>) -> Result<(), RelayError> {
    if accounts.len() < 4 {
        Err(RelayError::NotEnoughAccounts)
    } else {
        then(
            lifted(signer_check(accounts[0])),
            then(
                lifted(escrow_check(accounts[1], ctx.program_id@, Some(accounts[0].key@), true)),
                lifted(proof_check(accounts[3], ctx.ledger_program@, accounts[1].key@, true)),
            ),
        )
    }
}

/// The effects of a successful miner update.
pub open spec fn update_miner_effects(accounts: Seq<AccountView>, plan: Seq<Action>) -> bool {
    &&& plan.len() == 1
    &&& is_invoke(
        plan[0],
        LedgerCall::UpdateMiner { authority: 1, miner: 2 },
        escrow_signer(accounts[1].data@),
    )
}

/// Hands the signing right over the escrow's external position to a new miner.
pub fn process_update_miner(ctx: &Context, accounts: &[AccountView], data: &[u8]) -> (r: Result<Vec<Action>, RelayError>)
    ensures
        same_outcome(r, update_miner_check(*ctx, accounts@)),
        r matches Ok(plan) ==> update_miner_effects(accounts@, plan@),
{
    if accounts.len() < 4 {
        return Err(RelayError::NotEnoughAccounts);
    }
    let signer = &accounts[0];
    lift(load_signer(signer))?;
    let escrow = lift(load_escrow(&accounts[1], &ctx.program_id, &signer.key, true))?;
    lift(load_proof(&accounts[3], &ctx.ledger_program, &accounts[1].key, true))?;
    let seeds = escrow_signer_seeds(&escrow, Ghost(accounts@[1].data@));
    let mut plan: Vec<Action> = Vec::new();
    plan.push(Action::Invoke { call: LedgerCall::UpdateMiner { authority: 1, miner: 2 }, seeds });
    Ok(plan)
}

/// The escrow stored as `data` with its watermark moved to `hash`.
pub open spec fn with_watermark(data: Seq<u8>, hash: Seq<u8>) -> Seq<u8> {
    seq![100u8] + zeros(7) + data.subrange(8, 48) + hash + data.subrange(80, 112)
}

/// The checks of a commission collection, in order. Accounts: the relayer's
/// miner (signer), the beneficiary token account, an escrow, the escrow's
/// proof, the escrow's relayer.
pub open spec fn collect_check(ctx: Context, accounts: Seq<AccountView>, data: Seq<u8>) -> Result<(), RelayError> {
    if data.len() != 8 {
        Err(RelayError::InvalidInstruction)
    } else if accounts.len() < 5 {
        Err(RelayError::NotEnoughAccounts)
    } else {
        let escrow = accounts[2].data@;
        let proof = accounts[3].data@;
        let relayer = accounts[4].data@;
        then(
            lifted(signer_check(accounts[0])),
            then(
                lifted(token_check(accounts[1], ctx.token_program@, None, ctx.mint@, true)),
                then(
                    lifted(escrow_check(accounts[2], ctx.program_id@, None, true)),
                    then(
                        lifted(proof_check(accounts[3], ctx.ledger_program@, accounts[2].key@, true)),
                        then(
                            lifted(relayer_check(accounts[4], ctx.program_id@, false)),
                            if escrow.subrange(80, 112) != accounts[4].key@ {
                                Err(RelayError::Load(LoadError::AuthorityMismatch))
                            } else if accounts[0].key@ != relayer.subrange(56, 88) {
                                Err(RelayError::NotDesignatedMiner)
                            } else if escrow.subrange(48, 80) == proof.subrange(80, 112) {
                                Err(RelayError::AlreadyCollected)
                            } else if le_u64(proof.subrange(40, 48)) >= le_u64(relayer.subrange(48, 56))
                                && le_u64(data) > accounts[2].lamports {
                                Err(RelayError::InsufficientFunds)
                            } else {
                                Ok(())
                            },
                        ),
                    ),
                ),
            ),
        )
    }
}

/// The effects of a successful collection.
pub open spec fn collect_effects(accounts: Seq<AccountView>, data: Seq<u8>, plan: Seq<Action>) -> bool {
    let escrow = accounts[2].data@;
    let proof = accounts[3].data@;
    let commission = le_u64(accounts[4].data@.subrange(48, 56));
    &&& plan.len() >= 1
    &&& is_write(plan[0], 2, with_watermark(escrow, proof.subrange(80, 112)))
    &&& le_u64(proof.subrange(40, 48)) < commission ==> plan.len() == 1
    &&& le_u64(proof.subrange(40, 48)) >= commission ==> {
        &&& plan.len() == 3
        &&& is_invoke(
            plan[1],
            LedgerCall::Claim { authority: 2, beneficiary: 1, amount: commission },
            escrow_signer(escrow),
        )
        &&& plan[2] == Action::Pay { from: 2, to: 0, amount: le_u64(data) }
    }
}

/// Collects the relayer's commission from an escrow, once per accrual
/// fingerprint of the escrow's proof. The watermark moves to the proof's
/// fingerprint first; then, unless the proof's balance is below the
/// commission, the commission is claimed to the beneficiary and the escrow
/// pays the miner's fee.
pub fn process_collect(ctx: &Context, accounts: &[AccountView], data: &[u8]) -> (r: Result<Vec<Action>, RelayError>)
    ensures
        same_outcome(r, collect_check(*ctx, accounts@, data@)),
        r matches Ok(plan) ==> collect_effects(accounts@, data@, plan@),
{
    let args = match CollectArgs::try_from_bytes(data) {
        Some(a) => a,
        None => return Err(RelayError::InvalidInstruction),
    };
    if accounts.len() < 5 {
        return Err(RelayError::NotEnoughAccounts);
    }
    let signer = &accounts[0];
    lift(load_signer(signer))?;
    lift(load_token_account(&accounts[1], &ctx.token_program, None, &ctx.mint, true))?;
    let mut escrow = lift(load_any_escrow(&accounts[2], &ctx.program_id, true))?;
    let proof = lift(load_proof(&accounts[3], &ctx.ledger_program, &accounts[2].key, true))?;
    let relayer = lift(load_relayer(&accounts[4], &ctx.program_id, false))?;
    if !crate::bytes::same_key(&escrow.relayer, &accounts[4].key) {
        return Err(RelayError::Load(LoadError::AuthorityMismatch));
    }
    if !crate::bytes::same_key(&signer.key, &relayer.miner) {
        return Err(RelayError::NotDesignatedMiner);
    }
    if !crate::bytes::same_key(&escrow.last_hash, &proof.last_hash)
        && proof.balance >= relayer.commission && args.fee > accounts[2].lamports {
        return Err(RelayError::InsufficientFunds);
    }
    let ghost before = escrow;
    let seeds = escrow_signer_seeds(&escrow, Ghost(accounts@[2].data@));
    let transfer = escrow.collect(&proof.last_hash, proof.balance, relayer.commission)?;
    let bytes = escrow.to_bytes();
    proof {
        let d = accounts@[2].data@;
        crate::bytes::lemma_le_bytes_of_value(d.subrange(40, 48));
        assert(d.subrange(40, 48) =~= d.subrange(8, 48).subrange(32, 40));
        assert(escrow.encoding() =~= with_watermark(d, accounts@[3].data@.subrange(80, 112)));
    }
    let mut plan: Vec<Action> = Vec::new();
    plan.push(Action::Write { account: 2, data: bytes });
    match transfer {
        Some(amount) => {
            plan.push(
                Action::Invoke {
                    call: LedgerCall::Claim { authority: 2, beneficiary: 1, amount },
                    seeds,
                },
            );
            plan.push(Action::Pay { from: 2, to: 0, amount: args.fee });
        },
        None => {},
    }
    Ok(plan)
}

/// Collecting twice with no accrual between: once a collection succeeds and
/// its watermark write is applied to the escrow, the same collection against
/// the same proof is refused with `AlreadyCollected`, so no second transfer is
/// planned.
pub proof fn lemma_collect_twice_refused(ctx: Context, accounts: Seq<AccountView>, data: Seq<u8>, plan: Seq<Action>, next: AccountView)
    requires
        collect_check(ctx, accounts, data) is Ok,
        collect_effects(accounts, data, plan),
        next.key == accounts[2].key,
        next.owner == accounts[2].owner,
        next.is_signer == accounts[2].is_signer,
        next.is_writable == accounts[2].is_writable,
        next.lamports == accounts[2].lamports,
        is_write(plan[0], 2, next.data@),
    ensures
        collect_check(ctx, accounts.update(2, next), data) == Err::<(), RelayError>(
            RelayError::AlreadyCollected,
        ),
{
    let before = accounts[2].data@;
    let after = next.data@;
    let hash = accounts[3].data@.subrange(80, 112);
    assert(after == with_watermark(before, hash));
    assert(after.subrange(8, 40) =~= before.subrange(8, 40));
    assert(after.subrange(48, 80) =~= hash);
    assert(after.subrange(80, 112) =~= before.subrange(80, 112));
    let later = accounts.update(2, next);
    assert(later[0] == accounts[0]);
    assert(later[1] == accounts[1]);
    assert(later[3] == accounts[3]);
    assert(later[4] == accounts[4]);
}

/// The checks of opening an escrow, in order. Accounts: the user (signer and
/// payer), the relayer's miner (signer), the escrow to create, the proof to
/// create, the relayer.
pub open spec fn open_escrow_check(ctx: Context, accounts: Seq<AccountView>, data: Seq<u8>) -> Result<(), RelayError> {
    if data.len() != 2 {
        Err(RelayError::InvalidInstruction)
    } else if accounts.len() < 5 {
        Err(RelayError::NotEnoughAccounts)
    } else {
        then(
            lifted(signer_check(accounts[0])),
            then(
                lifted(signer_check(accounts[1])),
                then(
                    lifted(fresh_check(accounts[3], proof_path(accounts[2].key@), data[1], ctx.ledger_program@)),
                    then(
                        lifted(fresh_check(
                            accounts[2],
                            escrow_path(accounts[0].key@, accounts[4].key@),
                            data[0],
                            ctx.program_id@,
                        )),
                        then(
                            lifted(relayer_check(accounts[4], ctx.program_id@, false)),
                            if accounts[1].key@ != accounts[4].data@.subrange(56, 88) {
                                Err(RelayError::MinerMismatch)
                            } else {
                                Ok(())
                            },
                        ),
                    ),
                ),
            ),
        )
    }
}

/// The stored bytes of a new escrow of `authority` with `relayer`: nonce
/// `bump`, watermark all zero.
pub open spec fn new_escrow_bytes(authority: Seq<u8>, bump: u8, relayer: Seq<u8>) -> Seq<u8> {
    seq![100u8] + zeros(7) + authority + crate::bytes::le_bytes(bump as u64) + zeros(32) + relayer
}

/// The effects of a successful escrow opening.
pub open spec fn open_escrow_effects(ctx: Context, accounts: Seq<AccountView>, data: Seq<u8>, plan: Seq<Action>) -> bool {
    let seeds = with_bump(escrow_path(accounts[0].key@, accounts[4].key@), data[0]);
    &&& plan.len() == 3
    &&& is_allocate(plan[0], 2, ctx.program_id@, ESCROW_LEN, seeds)
    &&& is_write(plan[1], 2, new_escrow_bytes(accounts[0].key@, data[0], accounts[4].key@))
    &&& is_invoke(plan[2], LedgerCall::Open { authority: 2, miner: 1 }, seeds)
}

/// An escrow whose presented address is not the one derived from the user,
/// the relayer and the nonce is refused with `InvalidDerivation`, which
/// leaves nothing written.
pub proof fn lemma_open_escrow_wrong_address_refused(ctx: Context, accounts: Seq<AccountView>, data: Seq<u8>)
    requires
        data.len() == 2,
        accounts.len() >= 5,
        accounts[0].is_signer,
        accounts[1].is_signer,
        fresh_check(accounts[3], proof_path(accounts[2].key@), data[1], ctx.ledger_program@) is Ok,
        crate::address::program_address(
            with_bump(escrow_path(accounts[0].key@, accounts[4].key@), data[0]),
            ctx.program_id@,
        ) != Some(accounts[2].key@),
    ensures
        open_escrow_check(ctx, accounts, data) == Err::<(), RelayError>(
            RelayError::Load(LoadError::InvalidDerivation),
        ),
{
}

/// Opens an escrow for the user with a relayer: allocates it at its derived
/// address, writes its record, then opens its position in the external ledger,
/// mined by the relayer's miner and signed for by the escrow itself. Once that
/// call has returned, [`settle_open_escrow`] moves the watermark to the new
/// position's fingerprint. A derivation that does not give the presented
/// addresses is refused before anything is written.
pub fn process_open_escrow(ctx: &Context, accounts: &[AccountView], data: &[u8]) -> (r: Result<Vec<Action>, RelayError>)
    ensures
        same_outcome(r, open_escrow_check(*ctx, accounts@, data@)),
        r matches Ok(plan) ==> open_escrow_effects(*ctx, accounts@, data@, plan@),
{
    let args = match OpenEscrowArgs::try_from_bytes(data) {
        Some(a) => a,
        None => return Err(RelayError::InvalidInstruction),
    };
    if accounts.len() < 5 {
        return Err(RelayError::NotEnoughAccounts);
    }
    let signer = &accounts[0];
    let miner = &accounts[1];
    let escrow_info = &accounts[2];
    let relayer_info = &accounts[4];
    lift(load_signer(signer))?;
    lift(load_signer(miner))?;
    lift(load_uninitialized_pda(&accounts[3], proof_seeds(&escrow_info.key), args.proof_bump, &ctx.ledger_program))?;
    lift(load_uninitialized_pda(escrow_info, escrow_seeds(&signer.key, &relayer_info.key), args.escrow_bump, &ctx.program_id))?;
    let relayer = lift(load_relayer(relayer_info, &ctx.program_id, false))?;
    if !crate::bytes::same_key(&miner.key, &relayer.miner) {
        return Err(RelayError::MinerMismatch);
    }
    let mut escrow = Escrow::default();
    escrow.authority = signer.key;
    escrow.bump = args.escrow_bump as u64;
    escrow.relayer = relayer_info.key;
    let bytes = escrow.to_bytes();
    assert(bytes@ =~= new_escrow_bytes(signer.key@, args.escrow_bump, relayer_info.key@));
    let mut plan: Vec<Action> = Vec::new();
    plan.push(
        Action::Allocate {
            account: 2,
            owner: ctx.program_id,
            space: ESCROW_LEN,
            seeds: signer_seeds(escrow_seeds(&signer.key, &relayer_info.key), args.escrow_bump),
        },
    );
    plan.push(Action::Write { account: 2, data: bytes });
    plan.push(
        Action::Invoke {
            call: LedgerCall::Open { authority: 2, miner: 1 },
            seeds: signer_seeds(escrow_seeds(&signer.key, &relayer_info.key), args.escrow_bump),
        },
    );
    Ok(plan)
}

/// The checks of settling a newly opened escrow, in order. Accounts as for
/// opening it, after the external ledger has opened the escrow's position.
pub open spec fn settle_open_escrow_check(ctx: Context, accounts: Seq<AccountView>) -> Result<(), RelayError> {
    if accounts.len() < 5 {
        Err(RelayError::NotEnoughAccounts)
    } else {
        then(
            lifted(escrow_check(accounts[2], ctx.program_id@, Some(accounts[0].key@), true)),
            then(
                lifted(proof_check(accounts[3], ctx.ledger_program@, accounts[2].key@, false)),
                if accounts[2].data@.subrange(80, 112) != accounts[4].key@ {
                    Err(RelayError::Load(LoadError::AuthorityMismatch))
                } else {
                    Ok(())
                },
            ),
        )
    }
}

/// Completes the opening of an escrow once its external position exists: sets
/// the escrow's watermark to the position's current fingerprint, so that no
/// commission is owed before the first accrual.
pub fn settle_open_escrow(ctx: &Context, accounts: &[AccountView]) -> (r: Result<Vec<Action>, RelayError>)
    ensures
        same_outcome(r, settle_open_escrow_check(*ctx, accounts@)),
        r matches Ok(plan) ==> {
            &&& plan@.len() == 1
            &&& is_write(
                plan@[0],
                2,
                with_watermark(accounts@[2].data@, accounts@[3].data@.subrange(80, 112)),
            )
        },
{
    if accounts.len() < 5 {
        return Err(RelayError::NotEnoughAccounts);
    }
    let mut escrow = lift(load_escrow(&accounts[2], &ctx.program_id, &accounts[0].key, true))?;
    let proof = lift(load_proof(&accounts[3], &ctx.ledger_program, &accounts[2].key, false))?;
    if !crate::bytes::same_key(&escrow.relayer, &accounts[4].key) {
        return Err(RelayError::Load(LoadError::AuthorityMismatch));
    }
    escrow.last_hash = proof.last_hash;
    let bytes = escrow.to_bytes();
    proof {
        let d = accounts@[2].data@;
        crate::bytes::lemma_le_bytes_of_value(d.subrange(40, 48));
        assert(escrow.encoding() =~= with_watermark(d, accounts@[3].data@.subrange(80, 112)));
    }
    let mut plan: Vec<Action> = Vec::new();
    plan.push(Action::Write { account: 2, data: bytes });
    Ok(plan)
}

/// The checks of registering a relayer, in order. Accounts: the operator
/// (signer and payer), the relayer's miner, the relayer to create.
pub open spec fn open_relayer_check(ctx: Context, accounts: Seq<AccountView>, data: Seq<u8>) -> Result<(), RelayError> {
    if data.len() != 1 {
        Err(RelayError::InvalidInstruction)
    } else if accounts.len() < 3 {
        Err(RelayError::NotEnoughAccounts)
    } else {
        then(
            lifted(signer_check(accounts[0])),
            then(
                lifted(fresh_check(accounts[2], relayer_path(accounts[0].key@), data[0], ctx.program_id@)),
                if accounts[0].key@ != ctx.admin@ {
                    Err(RelayError::UnauthorizedRelayer)
                } else {
                    Ok(())
                },
            ),
        )
    }
}

/// The effects of a successful relayer registration.
pub open spec fn open_relayer_effects(ctx: Context, accounts: Seq<AccountView>, data: Seq<u8>, plan: Seq<Action>) -> bool {
    &&& plan.len() == 2
    &&& is_allocate(
        plan[0],
        2,
        ctx.program_id@,
        RELAYER_LEN,
        with_bump(relayer_path(accounts[0].key@), data[0]),
    )
    &&& is_write(
        plan[1],
        2,
        seq![101u8] + zeros(7) + accounts[0].key@ + crate::bytes::le_bytes(data[0] as u64)
            + crate::bytes::le_bytes(RELAYER_COMMISSION) + accounts[1].key@,
    )
}

/// Registers a relayer run by the program's administrator, with the miner that
/// its users authorize and the fixed commission [`RELAYER_COMMISSION`].
pub fn process_open_relayer(ctx: &Context, accounts: &[AccountView], data: &[u8]) -> (r: Result<Vec<Action>, RelayError>)
    ensures
        same_outcome(r, open_relayer_check(*ctx, accounts@, data@)),
        r matches Ok(plan) ==> open_relayer_effects(*ctx, accounts@, data@, plan@),
{
    let args = match OpenRelayerArgs::try_from_bytes(data) {
        Some(a) => a,
        None => return Err(RelayError::InvalidInstruction),
    };
    if accounts.len() < 3 {
        return Err(RelayError::NotEnoughAccounts);
    }
    let signer = &accounts[0];
    lift(load_signer(signer))?;
    lift(load_uninitialized_pda(&accounts[2], relayer_seeds(&signer.key), args.bump, &ctx.program_id))?;
    if !crate::bytes::same_key(&signer.key, &ctx.admin) {
        return Err(RelayError::UnauthorizedRelayer);
    }
    let relayer = Relayer {
        authority: signer.key,
        bump: args.bump as u64,
        commission: RELAYER_COMMISSION,
        miner: accounts[1].key,
    };
    let bytes = relayer.to_bytes();
    assert(bytes@ =~= seq![101u8] + zeros(7) + signer.key@ + crate::bytes::le_bytes(
        args.bump as u64,
    ) + crate::bytes::le_bytes(RELAYER_COMMISSION) + accounts@[1].key@);
    let mut plan: Vec<Action> = Vec::new();
    plan.push(
        Action::Allocate {
            account: 2,
            owner: ctx.program_id,
            space: RELAYER_LEN,
            seeds: signer_seeds(relayer_seeds(&signer.key), args.bump),
        },
    );
    plan.push(Action::Write { account: 2, data: bytes });
    Ok(plan)
}

/// Runs the operation whose tag leads `data` on the arguments that follow it,
/// when `program_id`, the program the operation is addressed to, is this one.
pub fn process_instruction(program_id: &[u8; 32], ctx: &Context, accounts: &[AccountView], data: &[u8]) -> (r: Result<Vec<Action>, RelayError>)
    ensures
        program_id@ != ctx.program_id@ ==> r == Err::<Vec<Action>, RelayError>(RelayError::IncorrectProgramId),
        program_id@ == ctx.program_id@ && data@.len() == 0 ==> r == Err::<Vec<Action>, RelayError>(
            RelayError::InvalidInstruction,
        ),
        program_id@ == ctx.program_id@ && data@.len() > 0 ==> {
            let tag = data@[0];
            let rest = data@.subrange(1, data@.len() as int);
            &&& (forall|i: RelayInstruction| i.value() != tag) ==> r == Err::<Vec<Action>, RelayError>(
                RelayError::InvalidInstruction,
            )
            &&& tag == RelayInstruction::Claim.value() ==> same_outcome(r, claim_check(*ctx, accounts@, rest))
                && (r matches Ok(plan) ==> claim_effects(accounts@, rest, plan@))
            &&& tag == RelayInstruction::CloseEscrow.value() ==> same_outcome(r, close_escrow_check(*ctx, accounts@))
                && (r matches Ok(plan) ==> close_escrow_effects(accounts@, plan@))
            &&& tag == RelayInstruction::OpenEscrow.value() ==> same_outcome(r, open_escrow_check(*ctx, accounts@, rest))
                && (r matches Ok(plan) ==> open_escrow_effects(*ctx, accounts@, rest, plan@))
            &&& tag == RelayInstruction::Stake.value() ==> same_outcome(r, stake_check(*ctx, accounts@, rest))
                && (r matches Ok(plan) ==> stake_effects(accounts@, rest, plan@))
            &&& tag == RelayInstruction::OpenRelayer.value() ==> same_outcome(r, open_relayer_check(*ctx, accounts@, rest))
                && (r matches Ok(plan) ==> open_relayer_effects(*ctx, accounts@, rest, plan@))
            &&& tag == RelayInstruction::Collect.value() ==> same_outcome(r, collect_check(*ctx, accounts@, rest))
                && (r matches Ok(plan) ==> collect_effects(accounts@, rest, plan@))
            &&& tag == RelayInstruction::UpdateMiner.value() ==> same_outcome(r, update_miner_check(*ctx, accounts@))
                && (r matches Ok(plan) ==> update_miner_effects(accounts@, plan@))
        },
{
    if !crate::bytes::same_key(program_id, &ctx.program_id) {
        return Err(RelayError::IncorrectProgramId);
    }
    if data.len() == 0 {
        return Err(RelayError::InvalidInstruction);
    }
    let rest = vstd::slice::slice_subrange(data, 1, data.len());
    match RelayInstruction::from_u8(data[0]) {
        Some(RelayInstruction::Claim) => process_claim(ctx, accounts, rest),
        Some(RelayInstruction::CloseEscrow) => process_close_escrow(ctx, accounts, rest),
        Some(RelayInstruction::OpenEscrow) => process_open_escrow(ctx, accounts, rest),
        Some(RelayInstruction::Stake) => process_stake(ctx, accounts, rest),
        Some(RelayInstruction::OpenRelayer) => process_open_relayer(ctx, accounts, rest),
        Some(RelayInstruction::Collect) => process_collect(ctx, accounts, rest),
        Some(RelayInstruction::UpdateMiner) => process_update_miner(ctx, accounts, rest),
        None => Err(RelayError::InvalidInstruction),
    }
}

} // verus!
