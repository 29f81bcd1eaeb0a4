//! The stake program's operations. Each checks its accounts and arguments, then
//! returns the plan of record writes and external ledger calls to carry out.
//! Nothing is written on failure.

use crate::account::{is_allocate, is_invoke, is_write, Action, AccountView, Context, LedgerCall};
use crate::address::{seeds_view, with_bump};
use crate::bytes::{le_bytes, le_u64, zeros};
use crate::error::{LoadError, StakeError};
use crate::loaders::{
    delegate_check, fresh_check, load_any_pool, load_delegate, load_proof, load_signer,
    load_token_account, load_uninitialized_pda, pool_check, proof_check, same_outcome,
    signer_check, token_check,
};
use crate::seeds::{delegate_path, delegate_seeds, pool_path, pool_seeds, proof_path, proof_seeds, signer_seeds};
use crate::stake::instruction::{
    DelegateArgs, InitializeArgs, OpenArgs, SetOpenArgs, StakeInstruction, WithdrawArgs,
};
use crate::stake::ledger::{sat_add, sat_sub, shares_for, value_of};
use crate::stake::state::{Delegate, Pool, DELEGATE_LEN, POOL_LEN};
use vstd::prelude::*;

verus! {

/// A loader failure as a failure of the stake program.
pub open spec fn lifted(r: Result<(), LoadError>) -> Result<(), StakeError> {
    match r {
        Ok(_) => Ok(()),
        Err(e) => Err(StakeError::Load(e)),
    }
}

/// `first`'s failure if it fails, else `second`.
pub open spec fn then(first: Result<(), StakeError>, second: Result<(), StakeError>) -> Result<(), StakeError> {
    if first is Err {
        first
    } else {
        second
    }
}

fn lift<T>(r: Result<T, LoadError>) -> (o: Result<T, StakeError>)
    ensures
        match r {
            Ok(v) => o == Ok::<T, StakeError>(v),
            Err(e) => o == Err::<T, StakeError>(StakeError::Load(e)),
        },
{
    match r {
        Ok(v) => Ok(v),
        Err(e) => Err(StakeError::Load(e)),
    }
}

/// The seeds that sign for the pool stored as `data`: its path and nonce.
pub open spec fn pool_signer(data: Seq<u8>) -> Seq<Seq<u8>> {
    with_bump(pool_path(data.subrange(8, 40)), le_u64(data.subrange(48, 56)) as u8)
}

fn pool_signer_seeds(p: &Pool, data: Ghost<Seq<u8>>) -> (r: Vec<Vec<u8>>)
    requires
        p.decoded_from(data@),
    ensures
        seeds_view(r@) == pool_signer(data@),
{
    signer_seeds(pool_seeds(&p.authority), p.bump as u8)
}

/// The delegate stored as `data` with its balance set to `balance`.
pub open spec fn delegate_with_balance(data: Seq<u8>, balance: u64) -> Seq<u8> {
    seq![100u8] + zeros(7) + data.subrange(8, 40) + le_bytes(balance) + data.subrange(48, 80)
}

/// The pool stored as `data` with its supply set to `balance`.
pub open spec fn pool_with_balance(data: Seq<u8>, balance: u64) -> Seq<u8> {
    seq![101u8] + zeros(7) + data.subrange(8, 40) + le_bytes(balance) + data.subrange(48, 64)
}

proof fn lemma_delegate_rewrite(d: Delegate, before: Delegate, data: Seq<u8>, balance: u64)
    requires
        Delegate::fits(data),
        before.decoded_from(data),
        d.authority == before.authority,
        d.pool == before.pool,
        d.balance == balance,
    ensures
        d.encoding() == delegate_with_balance(data, balance),
{
    assert(d.encoding() =~= delegate_with_balance(data, balance));
}

proof fn lemma_pool_rewrite(p: Pool, before: Pool, data: Seq<u8>, balance: u64)
    requires
        Pool::fits(data),
        before.decoded_from(data),
        p.authority == before.authority,
        p.bump == before.bump,
        p.is_open == before.is_open,
        p.balance == balance,
    ensures
        p.encoding() == pool_with_balance(data, balance),
{
    crate::bytes::lemma_le_bytes_of_value(data.subrange(48, 56));
    crate::bytes::lemma_le_bytes_of_value(data.subrange(56, 64));
    assert(data.subrange(48, 64) =~= data.subrange(48, 56) + data.subrange(56, 64));
    assert(p.encoding() =~= pool_with_balance(data, balance));
}

/// The checks of creating a pool, in order. Accounts: the operator (signer and
/// payer), the pool's miner, the pool to create, the proof to create.
pub open spec fn initialize_check(ctx: Context, accounts: Seq<AccountView>, data: Seq<u8>) -> Result<(), StakeError> {
    if data.len() != 2 {
        Err(StakeError::InvalidInstruction)
    } else if accounts.len() < 4 {
        Err(StakeError::NotEnoughAccounts)
    } else {
        then(
            lifted(signer_check(accounts[0])),
            then(
                lifted(fresh_check(accounts[2], pool_path(accounts[0].key@), data[1], ctx.program_id@)),
                lifted(fresh_check(accounts[3], proof_path(accounts[2].key@), data[0], ctx.ledger_program@)),
            ),
        )
    }
}

/// The effects of a successful pool creation.
pub open spec fn initialize_effects(ctx: Context, accounts: Seq<AccountView>, data: Seq<u8>, plan: Seq<Action>) -> bool {
    let seeds = with_bump(pool_path(accounts[0].key@), data[1]);
    &&& plan.len() == 3
    &&& is_allocate(plan[0], 2, ctx.program_id@, POOL_LEN, seeds)
    &&& is_write(
        plan[1],
        2,
        seq![101u8] + zeros(7) + accounts[0].key@ + le_bytes(0) + le_bytes(data[1] as u64)
            + le_bytes(0),
    )
    &&& is_invoke(plan[2], LedgerCall::Open { authority: 2, miner: 1 }, seeds)
}

/// Creates a pool run by the signer, closed to deposits until its operator
/// opens it, with no shares outstanding, and opens its position in the
/// external ledger. The pool's token account, through which deposits pass,
/// is not created here: the operator creates it (any token account of the
/// staked mint held by the pool, usually the pool's associated token account)
/// before opening the pool, and each deposit checks it.
pub fn process_initialize(ctx: &Context, accounts: &[AccountView], data: &[u8]) -> (r: Result<Vec<Action>, StakeError>)
    ensures
        same_outcome(r, initialize_check(*ctx, accounts@, data@)),
        r matches Ok(plan) ==> initialize_effects(*ctx, accounts@, data@, plan@),
{
    let args = match InitializeArgs::try_from_bytes(data) {
        Some(a) => a,
        None => return Err(StakeError::InvalidInstruction),
    };
    if accounts.len() < 4 {
        return Err(StakeError::NotEnoughAccounts);
    }
    let signer = &accounts[0];
    lift(load_signer(signer))?;
    lift(load_uninitialized_pda(&accounts[2], pool_seeds(&signer.key), args.pool_bump, &ctx.program_id))?;
    lift(load_uninitialized_pda(&accounts[3], proof_seeds(&accounts[2].key), args.proof_bump, &ctx.ledger_program))?;
    let pool = Pool { authority: signer.key, balance: 0, bump: args.pool_bump as u64, is_open: 0 };
    let mut plan: Vec<Action> = Vec::new();
    plan.push(
        Action::Allocate {
            account: 2,
            owner: ctx.program_id,
            space: POOL_LEN,
            seeds: signer_seeds(pool_seeds(&signer.key), args.pool_bump),
        },
    );
    let bytes = pool.to_bytes();
    assert(bytes@ =~= seq![101u8] + zeros(7) + signer.key@ + le_bytes(0) + le_bytes(
        args.pool_bump as u64,
    ) + le_bytes(0));
    plan.push(Action::Write { account: 2, data: bytes });
    plan.push(
        Action::Invoke {
            call: LedgerCall::Open { authority: 2, miner: 1 },
            seeds: signer_seeds(pool_seeds(&signer.key), args.pool_bump),
        },
    );
    Ok(plan)
}

/// The checks of opening a delegate, in order. Accounts: the depositor (signer
/// and payer), the delegate to create, the pool.
pub open spec fn open_check(ctx: Context, accounts: Seq<AccountView>, data: Seq<u8>) -> Result<(), StakeError> {
    if data.len() != 1 {
        Err(StakeError::InvalidInstruction)
    } else if accounts.len() < 3 {
        Err(StakeError::NotEnoughAccounts)
    } else {
        then(
            lifted(signer_check(accounts[0])),
            then(
                lifted(fresh_check(
                    accounts[1],
                    delegate_path(accounts[0].key@, accounts[2].key@),
                    data[0],
                    ctx.program_id@,
                )),
                lifted(pool_check(accounts[2], ctx.program_id@, false)),
            ),
        )
    }
}

/// The effects of a successful delegate opening.
pub open spec fn open_effects(ctx: Context, accounts: Seq<AccountView>, data: Seq<u8>, plan: Seq<Action>) -> bool {
    &&& plan.len() == 2
    &&& is_allocate(
        plan[0],
        1,
        ctx.program_id@,
        DELEGATE_LEN,
        with_bump(delegate_path(accounts[0].key@, accounts[2].key@), data[0]),
    )
    &&& is_write(
        plan[1],
        1,
        seq![100u8] + zeros(7) + accounts[0].key@ + le_bytes(0) + accounts[2].key@,
    )
}

/// A delegate whose presented address is not the one derived from the
/// depositor, the pool and the nonce is refused with `InvalidDerivation`,
/// which leaves nothing written.
pub proof fn lemma_open_wrong_address_refused(ctx: Context, accounts: Seq<AccountView>, data: Seq<u8>)
    requires
        data.len() == 1,
        accounts.len() >= 3,
        accounts[0].is_signer,
        crate::address::program_address(
            with_bump(delegate_path(accounts[0].key@, accounts[2].key@), data[0]),
            ctx.program_id@,
        ) != Some(accounts[1].key@),
    ensures
        open_check(ctx, accounts, data) == Err::<(), StakeError>(
            StakeError::Load(LoadError::InvalidDerivation),
        ),
{
}

/// Opens the signer's delegate in a pool, holding no shares. A derivation that
/// does not give the presented address is refused before anything is written.
pub fn process_open(ctx: &Context, accounts: &[AccountView], data: &[u8]) -> (r: Result<Vec<Action>, StakeError>)
    ensures
        same_outcome(r, open_check(*ctx, accounts@, data@)),
        r matches Ok(plan) ==> open_effects(*ctx, accounts@, data@, plan@),
{
    let args = match OpenArgs::try_from_bytes(data) {
        Some(a) => a,
        None => return Err(StakeError::InvalidInstruction),
    };
    if accounts.len() < 3 {
        return Err(StakeError::NotEnoughAccounts);
    }
    let signer = &accounts[0];
    lift(load_signer(signer))?;
    lift(load_uninitialized_pda(&accounts[1], delegate_seeds(&signer.key, &accounts[2].key), args.bump, &ctx.program_id))?;
    lift(load_any_pool(&accounts[2], &ctx.program_id, false))?;
    let delegate = Delegate { authority: signer.key, balance: 0, pool: accounts[2].key };
    let mut plan: Vec<Action> = Vec::new();
    plan.push(
        Action::Allocate {
            account: 1,
            owner: ctx.program_id,
            space: DELEGATE_LEN,
            seeds: signer_seeds(delegate_seeds(&signer.key, &accounts[2].key), args.bump),
        },
    );
    let bytes = delegate.to_bytes();
    assert(bytes@ =~= seq![100u8] + zeros(7) + signer.key@ + le_bytes(0) + accounts@[2].key@);
    plan.push(Action::Write { account: 1, data: bytes });
    Ok(plan)
}

/// The checks of a deposit, in order. Accounts: the depositor (signer), the
/// depositor's delegate, the pool, the pool's token account, the pool's proof,
/// the depositor's source token account.
pub open spec fn delegate_check_all(ctx: Context, accounts: Seq<AccountView>, data: Seq<u8>) -> Result<(), StakeError> {
    if data.len() != 8 {
        Err(StakeError::InvalidInstruction)
    } else if accounts.len() < 6 {
        Err(StakeError::NotEnoughAccounts)
    } else {
        then(
            lifted(signer_check(accounts[0])),
            then(
                lifted(delegate_check(accounts[1], ctx.program_id@, accounts[0].key@, accounts[2].key@, true)),
                then(
                    lifted(pool_check(accounts[2], ctx.program_id@, true)),
                    then(
                        lifted(token_check(accounts[3], ctx.token_program@, Some(accounts[2].key@), ctx.mint@, true)),
                        then(
                            lifted(proof_check(accounts[4], ctx.ledger_program@, accounts[2].key@, true)),
                            then(
                                lifted(token_check(accounts[5], ctx.token_program@, Some(accounts[0].key@), ctx.mint@, true)),
                                if le_u64(accounts[2].data@.subrange(56, 64)) == 0 {
                                    Err(StakeError::PoolClosed)
                                } else {
                                    Ok(())
                                },
                            ),
                        ),
                    ),
                ),
            ),
        )
    }
}

/// The shares a deposit described by `accounts` and `data` mints.
pub open spec fn deposit_minted(accounts: Seq<AccountView>, data: Seq<u8>) -> u64 {
    shares_for(
        le_u64(data),
        le_u64(accounts[2].data@.subrange(40, 48)),
        le_u64(accounts[4].data@.subrange(40, 48)),
    )
}

/// The effects of a successful deposit.
pub open spec fn delegate_effects(accounts: Seq<AccountView>, data: Seq<u8>, plan: Seq<Action>) -> bool {
    let minted = deposit_minted(accounts, data);
    let delegate = accounts[1].data@;
    let pool = accounts[2].data@;
    &&& plan.len() == 4
    &&& is_write(plan[0], 1, delegate_with_balance(delegate, sat_add(le_u64(delegate.subrange(40, 48)), minted)))
    &&& is_write(plan[1], 2, pool_with_balance(pool, sat_add(le_u64(pool.subrange(40, 48)), minted)))
    &&& plan[2] == Action::Transfer { from: 5, to: 3, amount: le_u64(data) }
    &&& is_invoke(plan[3], LedgerCall::Stake { authority: 2, sender: 3, amount: le_u64(data) }, pool_signer(pool))
}

/// Deposits into a pool. The depositor's delegate and the pool's supply are
/// credited with the shares the amount buys, priced by the pool's external
/// balance before the deposit; then the amount moves into the pool's token
/// account and is staked into the pool's external position.
pub fn process_delegate(ctx: &Context, accounts: &[AccountView], data: &[u8]) -> (r: Result<Vec<Action>, StakeError>)
    ensures
        same_outcome(r, delegate_check_all(*ctx, accounts@, data@)),
        r matches Ok(plan) ==> delegate_effects(accounts@, data@, plan@),
{
    let args = match DelegateArgs::try_from_bytes(data) {
        Some(a) => a,
        None => return Err(StakeError::InvalidInstruction),
    };
    if accounts.len() < 6 {
        return Err(StakeError::NotEnoughAccounts);
    }
    let signer = &accounts[0];
    let pool_info = &accounts[2];
    lift(load_signer(signer))?;
    let mut delegate = lift(load_delegate(&accounts[1], &ctx.program_id, &signer.key, &pool_info.key, true))?;
    let mut pool = lift(load_any_pool(pool_info, &ctx.program_id, true))?;
    lift(load_token_account(&accounts[3], &ctx.token_program, Some(&pool_info.key), &ctx.mint, true))?;
    let proof = lift(load_proof(&accounts[4], &ctx.ledger_program, &pool_info.key, true))?;
    lift(load_token_account(&accounts[5], &ctx.token_program, Some(&signer.key), &ctx.mint, true))?;
    if pool.is_open == 0 {
        return Err(StakeError::PoolClosed);
    }
    let seeds = pool_signer_seeds(&pool, Ghost(pool_info.data@));
    let ghost delegate_before = delegate;
    let ghost pool_before = pool;
    pool.deposit(&mut delegate, args.amount, proof.balance);
    proof {
        lemma_delegate_rewrite(delegate, delegate_before, accounts@[1].data@, delegate.balance);
        lemma_pool_rewrite(pool, pool_before, pool_info.data@, pool.balance);
    }
    let mut plan: Vec<Action> = Vec::new();
    plan.push(Action::Write { account: 1, data: delegate.to_bytes() });
    plan.push(Action::Write { account: 2, data: pool.to_bytes() });
    plan.push(Action::Transfer { from: 5, to: 3, amount: args.amount });
    plan.push(
        Action::Invoke {
            call: LedgerCall::Stake { authority: 2, sender: 3, amount: args.amount },
            seeds,
        },
    );
    Ok(plan)
}

/// The checks of a withdrawal, in order. Accounts: the depositor (signer), the
/// beneficiary token account, the depositor's delegate, the pool, the pool's
/// proof. A withdrawal beyond the delegate's balance is refused.
pub open spec fn withdraw_check(ctx: Context, accounts: Seq<AccountView>, data: Seq<u8>) -> Result<(), StakeError> {
    if data.len() != 8 {
        Err(StakeError::InvalidInstruction)
    } else if accounts.len() < 5 {
        Err(StakeError::NotEnoughAccounts)
    } else {
        then(
            lifted(signer_check(accounts[0])),
            then(
                lifted(token_check(accounts[1], ctx.token_program@, None, ctx.mint@, true)),
                then(
                    lifted(delegate_check(accounts[2], ctx.program_id@, accounts[0].key@, accounts[3].key@, true)),
                    then(
                        lifted(pool_check(accounts[3], ctx.program_id@, true)),
                        then(
                            lifted(proof_check(accounts[4], ctx.ledger_program@, accounts[3].key@, true)),
                            if le_u64(data) > le_u64(accounts[2].data@.subrange(40, 48)) {
                                Err(StakeError::InsufficientBalance)
                            } else {
                                Ok(())
                            },
                        ),
                    ),
                ),
            ),
        )
    }
}

/// The external units a withdrawal described by `accounts` and `data` pays out.
pub open spec fn withdraw_claim(accounts: Seq<AccountView>, data: Seq<u8>) -> u64 {
    value_of(
        le_u64(data),
        le_u64(accounts[3].data@.subrange(40, 48)),
        le_u64(accounts[4].data@.subrange(40, 48)),
    )
}

/// The effects of a successful withdrawal.
pub open spec fn withdraw_effects(accounts: Seq<AccountView>, data: Seq<u8>, plan: Seq<Action>) -> bool {
    let shares = le_u64(data);
    let delegate = accounts[2].data@;
    let pool = accounts[3].data@;
    &&& plan.len() == 3
    &&& is_write(plan[0], 2, delegate_with_balance(delegate, (le_u64(delegate.subrange(40, 48)) - shares) as u64))
    &&& is_write(plan[1], 3, pool_with_balance(pool, sat_sub(le_u64(pool.subrange(40, 48)), shares)))
    &&& is_invoke(
        plan[2],
        LedgerCall::Claim { authority: 3, beneficiary: 1, amount: withdraw_claim(accounts, data) },
        pool_signer(pool),
    )
}

/// Redeems shares of the signer's delegate: debits them from the delegate and
/// from the pool's supply, and claims what they are worth, priced by the
/// pool's external balance before the withdrawal, to the beneficiary.
pub fn process_withdraw(ctx: &Context, accounts: &[AccountView], data: &[u8]) -> (r: Result<Vec<Action>, StakeError>)
    ensures
        same_outcome(r, withdraw_check(*ctx, accounts@, data@)),
        r matches Ok(plan) ==> withdraw_effects(accounts@, data@, plan@),
{
    let args = match WithdrawArgs::try_from_bytes(data) {
        Some(a) => a,
        None => return Err(StakeError::InvalidInstruction),
    };
    if accounts.len() < 5 {
        return Err(StakeError::NotEnoughAccounts);
    }
    let signer = &accounts[0];
    let pool_info = &accounts[3];
    lift(load_signer(signer))?;
    lift(load_token_account(&accounts[1], &ctx.token_program, None, &ctx.mint, true))?;
    let mut delegate = lift(load_delegate(&accounts[2], &ctx.program_id, &signer.key, &pool_info.key, true))?;
    let mut pool = lift(load_any_pool(pool_info, &ctx.program_id, true))?;
    let proof = lift(load_proof(&accounts[4], &ctx.ledger_program, &pool_info.key, true))?;
    let seeds = pool_signer_seeds(&pool, Ghost(pool_info.data@));
    let ghost delegate_before = delegate;
    let ghost pool_before = pool;
    let claim = pool.withdraw(&mut delegate, args.amount, proof.balance)?;
    proof {
        lemma_delegate_rewrite(delegate, delegate_before, accounts@[2].data@, delegate.balance);
        lemma_pool_rewrite(pool, pool_before, pool_info.data@, pool.balance);
    }
    let mut plan: Vec<Action> = Vec::new();
    plan.push(Action::Write { account: 2, data: delegate.to_bytes() });
    plan.push(Action::Write { account: 3, data: pool.to_bytes() });
    plan.push(
        Action::Invoke {
            call: LedgerCall::Claim { authority: 3, beneficiary: 1, amount: claim },
            seeds,
        },
    );
    Ok(plan)
}

/// A depositor holding every outstanding share who withdraws them all is paid
/// the pool's whole external balance, and the pool is left with no shares.
pub proof fn lemma_withdraw_everything(accounts: Seq<AccountView>, data: Seq<u8>)
    requires
        accounts.len() >= 5,
        data.len() == 8,
        le_u64(data) > 0,
        le_u64(data) == le_u64(accounts[2].data@.subrange(40, 48)),
        le_u64(data) == le_u64(accounts[3].data@.subrange(40, 48)),
    ensures
        withdraw_claim(accounts, data) == le_u64(accounts[4].data@.subrange(40, 48)),
        sat_sub(le_u64(accounts[3].data@.subrange(40, 48)), le_u64(data)) == 0,
        le_u64(accounts[2].data@.subrange(40, 48)) - le_u64(data) == 0,
{
    crate::stake::ledger::lemma_withdraw_all(le_u64(data), le_u64(accounts[4].data@.subrange(40, 48)));
}

/// The checks of closing a delegate, in order. Accounts: the depositor
/// (signer), the depositor's delegate, the pool. The delegate must hold no
/// shares.
pub open spec fn close_check(ctx: Context, accounts: Seq<AccountView>) -> Result<(), StakeError> {
    if accounts.len() < 3 {
        Err(StakeError::NotEnoughAccounts)
    } else {
        then(
            lifted(signer_check(accounts[0])),
            then(
                lifted(delegate_check(accounts[1], ctx.program_id@, accounts[0].key@, accounts[2].key@, true)),
                then(
                    lifted(pool_check(accounts[2], ctx.program_id@, false)),
                    if le_u64(accounts[1].data@.subrange(40, 48)) != 0 {
                        Err(StakeError::BalanceNotZero)
                    } else {
                        Ok(())
                    },
                ),
            ),
        )
    }
}

/// Closing a delegate that still holds shares is refused with
/// `BalanceNotZero`, once the accounts pass their checks.
pub proof fn lemma_close_with_balance_refused(ctx: Context, accounts: Seq<AccountView>)
    requires
        accounts.len() >= 3,
        signer_check(accounts[0]) is Ok,
        delegate_check(accounts[1], ctx.program_id@, accounts[0].key@, accounts[2].key@, true) is Ok,
        pool_check(accounts[2], ctx.program_id@, false) is Ok,
        le_u64(accounts[1].data@.subrange(40, 48)) != 0,
    ensures
        close_check(ctx, accounts) == Err::<(), StakeError>(StakeError::BalanceNotZero),
{
}

/// A withdrawal beyond the delegate's balance is refused with
/// `InsufficientBalance`, once the accounts pass their checks; nothing is
/// written.
pub proof fn lemma_over_withdrawal_refused(ctx: Context, accounts: Seq<AccountView>, data: Seq<u8>)
    requires
        data.len() == 8,
        accounts.len() >= 5,
        signer_check(accounts[0]) is Ok,
        token_check(accounts[1], ctx.token_program@, None, ctx.mint@, true) is Ok,
        delegate_check(accounts[2], ctx.program_id@, accounts[0].key@, accounts[3].key@, true) is Ok,
        pool_check(accounts[3], ctx.program_id@, true) is Ok,
        proof_check(accounts[4], ctx.ledger_program@, accounts[3].key@, true) is Ok,
        le_u64(data) > le_u64(accounts[2].data@.subrange(40, 48)),
    ensures
        withdraw_check(ctx, accounts, data) == Err::<(), StakeError>(StakeError::InsufficientBalance),
{
}

/// Closes the signer's empty delegate: zeroes its storage and returns its
/// native balance to the signer.
pub fn process_close(ctx: &Context, accounts: &[AccountView], data: &[u8]) -> (r: Result<Vec<Action>, StakeError>)
    ensures
        same_outcome(r, close_check(*ctx, accounts@)),
        r matches Ok(plan) ==> plan@ =~= seq![Action::Close { account: 1, recipient: 0 }],
{
    if accounts.len() < 3 {
        return Err(StakeError::NotEnoughAccounts);
    }
    let signer = &accounts[0];
    lift(load_signer(signer))?;
    let delegate = lift(load_delegate(&accounts[1], &ctx.program_id, &signer.key, &accounts[2].key, true))?;
    lift(load_any_pool(&accounts[2], &ctx.program_id, false))?;
    if delegate.balance != 0 {
        return Err(StakeError::BalanceNotZero);
    }
    let mut plan: Vec<Action> = Vec::new();
    plan.push(Action::Close { account: 1, recipient: 0 });
    Ok(plan)
}

/// The pool stored as `data` with its deposit flag set to `is_open`.
pub open spec fn pool_with_flag(data: Seq<u8>, is_open: u64) -> Seq<u8> {
    seq![101u8] + zeros(7) + data.subrange(8, 56) + le_bytes(is_open)
}

/// The checks of opening or closing a pool to deposits, in order. Accounts:
/// the pool's operator (signer), the pool. Only the operator recorded in the
/// pool may change the flag.
pub open spec fn set_open_check(ctx: Context, accounts: Seq<AccountView>, data: Seq<u8>) -> Result<(), StakeError> {
    if data.len() != 1 {
        Err(StakeError::InvalidInstruction)
    } else if accounts.len() < 2 {
        Err(StakeError::NotEnoughAccounts)
    } else {
        then(
            lifted(signer_check(accounts[0])),
            then(
                lifted(pool_check(accounts[1], ctx.program_id@, true)),
                if accounts[1].data@.subrange(8, 40) != accounts[0].key@ {
                    Err(StakeError::Load(LoadError::AuthorityMismatch))
                } else {
                    Ok(())
                },
            ),
        )
    }
}

/// Opens the pool to deposits when the payload byte is non-zero, and closes
/// it when the byte is zero. Only the pool's operator may do so.
pub fn process_set_open(ctx: &Context, accounts: &[AccountView], data: &[u8]) -> (r: Result<Vec<Action>, StakeError>)
    ensures
        same_outcome(r, set_open_check(*ctx, accounts@, data@)),
        r matches Ok(plan) ==> {
            &&& plan@.len() == 1
            &&& is_write(
                plan@[0],
                1,
                pool_with_flag(accounts@[1].data@, if data@[0] == 0 { 0 } else { 1 }),
            )
        },
{
    let args = match SetOpenArgs::try_from_bytes(data) {
        Some(a) => a,
        None => return Err(StakeError::InvalidInstruction),
    };
    if accounts.len() < 2 {
        return Err(StakeError::NotEnoughAccounts);
    }
    let signer = &accounts[0];
    lift(load_signer(signer))?;
    let mut pool = lift(load_any_pool(&accounts[1], &ctx.program_id, true))?;
    if !crate::bytes::same_key(&pool.authority, &signer.key) {
        return Err(StakeError::Load(LoadError::AuthorityMismatch));
    }
    pool.is_open = if args.is_open { 1 } else { 0 };
    let bytes = pool.to_bytes();
    proof {
        let d = accounts@[1].data@;
        crate::bytes::lemma_le_bytes_of_value(d.subrange(40, 48));
        crate::bytes::lemma_le_bytes_of_value(d.subrange(48, 56));
        assert(d.subrange(8, 56) =~= d.subrange(8, 40) + d.subrange(40, 48) + d.subrange(48, 56));
        assert(bytes@ =~= pool_with_flag(d, if data@[0] == 0 { 0 } else { 1 }));
    }
    let mut plan: Vec<Action> = Vec::new();
    plan.push(Action::Write { account: 1, data: bytes });
    Ok(plan)
}

/// Runs the operation whose tag leads `data` on the arguments that follow it,
/// when `program_id`, the program the operation is addressed to, is this one.
pub fn process_instruction(program_id: &[u8; 32], ctx: &Context, accounts: &[AccountView], data: &[u8]) -> (r: Result<Vec<Action>, StakeError>)
    ensures
        program_id@ != ctx.program_id@ ==> r == Err::<Vec<Action>, StakeError>(StakeError::IncorrectProgramId),
        program_id@ == ctx.program_id@ && data@.len() == 0 ==> r == Err::<Vec<Action>, StakeError>(
            StakeError::InvalidInstruction,
        ),
        program_id@ == ctx.program_id@ && data@.len() > 0 ==> {
            let tag = data@[0];
            let rest = data@.subrange(1, data@.len() as int);
            &&& (forall|i: StakeInstruction| i.value() != tag) ==> r == Err::<Vec<Action>, StakeError>(
                StakeError::InvalidInstruction,
            )
            &&& tag == StakeInstruction::Initialize.value() ==> same_outcome(r, initialize_check(*ctx, accounts@, rest))
                && (r matches Ok(plan) ==> initialize_effects(*ctx, accounts@, rest, plan@))
            &&& tag == StakeInstruction::Open.value() ==> same_outcome(r, open_check(*ctx, accounts@, rest))
                && (r matches Ok(plan) ==> open_effects(*ctx, accounts@, rest, plan@))
            &&& tag == StakeInstruction::Delegate.value() ==> same_outcome(r, delegate_check_all(*ctx, accounts@, rest))
                && (r matches Ok(plan) ==> delegate_effects(accounts@, rest, plan@))
            &&& tag == StakeInstruction::Withdraw.value() ==> same_outcome(r, withdraw_check(*ctx, accounts@, rest))
                && (r matches Ok(plan) ==> withdraw_effects(accounts@, rest, plan@))
            &&& tag == StakeInstruction::SetOpen.value() ==> same_outcome(r, set_open_check(*ctx, accounts@, rest))
                && (r matches Ok(plan) ==> plan@.len() == 1 && is_write(
                plan@[0],
                1,
                pool_with_flag(accounts@[1].data@, if rest[0] == 0 { 0 } else { 1 }),
            ))
            &&& tag == StakeInstruction::Close.value() ==> same_outcome(r, close_check(*ctx, accounts@))
                && (r matches Ok(plan) ==> plan@ =~= seq![Action::Close { account: 1, recipient: 0 }])
        },
{
    if !crate::bytes::same_key(program_id, &ctx.program_id) {
        return Err(StakeError::IncorrectProgramId);
    }
    if data.len() == 0 {
        return Err(StakeError::InvalidInstruction);
    }
    let rest = vstd::slice::slice_subrange(data, 1, data.len());
    match StakeInstruction::from_u8(data[0]) {
        Some(StakeInstruction::Initialize) => process_initialize(ctx, accounts, rest),
        Some(StakeInstruction::Open) => process_open(ctx, accounts, rest),
        Some(StakeInstruction::Delegate) => process_delegate(ctx, accounts, rest),
        Some(StakeInstruction::Withdraw) => process_withdraw(ctx, accounts, rest),
        Some(StakeInstruction::Close) => process_close(ctx, accounts, rest),
        Some(StakeInstruction::SetOpen) => process_set_open(ctx, accounts, rest),
        None => Err(StakeError::InvalidInstruction),
    }
}

} // verus!
