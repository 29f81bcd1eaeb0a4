use ore_relay::account::{AccountView, Action, Context, LedgerCall};
use ore_relay::error::{LoadError, StakeError};
use ore_relay::stake::instruction::StakeInstruction;
use ore_relay::stake::processor::{
    process_close, process_delegate, process_initialize, process_instruction, process_open,
    process_set_open, process_withdraw,
};
use ore_relay::stake::state::{Delegate, Pool};
use solana_program::pubkey::Pubkey;

const PROGRAM: [u8; 32] = [1u8; 32];
const LEDGER: [u8; 32] = [2u8; 32];
const TOKEN: [u8; 32] = [3u8; 32];
const MINT: [u8; 32] = [4u8; 32];
const OPERATOR: [u8; 32] = [5u8; 32];
const USER: [u8; 32] = [11u8; 32];
const DELEGATE: [u8; 32] = [12u8; 32];
const POOL: [u8; 32] = [13u8; 32];
const POOL_TOKENS: [u8; 32] = [14u8; 32];
const PROOF: [u8; 32] = [15u8; 32];
const SOURCE: [u8; 32] = [16u8; 32];

fn ctx() -> Context {
    Context { program_id: PROGRAM, ledger_program: LEDGER, token_program: TOKEN, mint: MINT, admin: OPERATOR, treasury: [50u8; 32], treasury_tokens: [51u8; 32], slot_hashes: [52u8; 32] }
}

fn account(key: [u8; 32], owner: [u8; 32], data: Vec<u8>, is_signer: bool) -> AccountView {
    AccountView { key, owner, data, lamports: 1_000_000, is_signer, is_writable: true }
}

fn proof_bytes(authority: [u8; 32], balance: u64) -> Vec<u8> {
    let mut d = vec![0u8; 176];
    d[0] = 102;
    d[8..40].copy_from_slice(&authority);
    d[40..48].copy_from_slice(&balance.to_le_bytes());
    d
}

fn token_bytes(mint: [u8; 32], owner: [u8; 32]) -> Vec<u8> {
    let mut d = vec![0u8; 165];
    d[0..32].copy_from_slice(&mint);
    d[32..64].copy_from_slice(&owner);
    d[108] = 1;
    d
}

fn pool_bytes(balance: u64, is_open: u64) -> Vec<u8> {
    Pool { authority: OPERATOR, balance, bump: 253, is_open }.to_bytes()
}

fn delegate_bytes(balance: u64) -> Vec<u8> {
    Delegate { authority: USER, balance, pool: POOL }.to_bytes()
}

fn pda(seeds: &[&[u8]], program: &[u8; 32]) -> ([u8; 32], u8) {
    let (k, b) = Pubkey::find_program_address(seeds, &Pubkey::new_from_array(*program));
    (k.to_bytes(), b)
}

fn deposit_accounts(delegate: u64, supply: u64, external: u64, is_open: u64) -> Vec<AccountView> {
    vec![
        account(USER, [0u8; 32], vec![], true),
        account(DELEGATE, PROGRAM, delegate_bytes(delegate), false),
        account(POOL, PROGRAM, pool_bytes(supply, is_open), false),
        account(POOL_TOKENS, TOKEN, token_bytes(MINT, POOL), false),
        account(PROOF, LEDGER, proof_bytes(POOL, external), false),
        account(SOURCE, TOKEN, token_bytes(MINT, USER), false),
    ]
}

fn written(plan: &[Action], index: usize) -> Vec<u8> {
    match &plan[index] {
        Action::Write { data, .. } => data.clone(),
        other => panic!("unexpected effect {:?}", other),
    }
}

#[test]
fn first_deposit_into_empty_pool_mints_the_amount() {
    let plan = process_delegate(&ctx(), &deposit_accounts(0, 0, 0, 1), &1_000u64.to_le_bytes()).unwrap();
    assert_eq!(plan.len(), 4);
    assert_eq!(Delegate::from_bytes(&written(&plan, 0)).unwrap().balance, 1_000);
    let pool = Pool::from_bytes(&written(&plan, 1)).unwrap();
    assert_eq!(pool.balance, 1_000);
    assert_eq!(pool.authority, OPERATOR);
    assert_eq!(pool.bump, 253);
    assert!(matches!(plan[2], Action::Transfer { from: 5, to: 3, amount: 1_000 }));
    match &plan[3] {
        Action::Invoke { call, seeds } => {
            assert_eq!(*call, LedgerCall::Stake { authority: 2, sender: 3, amount: 1_000 });
            assert_eq!(seeds.clone(), vec![b"pool".to_vec(), OPERATOR.to_vec(), vec![253u8]]);
        },
        other => panic!("unexpected effect {:?}", other),
    }
}

#[test]
fn deposit_after_rewards_doubled_the_pool_mints_fewer_shares() {
    let plan = process_delegate(&ctx(), &deposit_accounts(0, 1_000, 2_000, 1), &1_000u64.to_le_bytes()).unwrap();
    assert_eq!(Delegate::from_bytes(&written(&plan, 0)).unwrap().balance, 500);
    assert_eq!(Pool::from_bytes(&written(&plan, 1)).unwrap().balance, 1_500);
}

#[test]
fn deposit_into_closed_pool_is_refused() {
    assert_eq!(
        process_delegate(&ctx(), &deposit_accounts(0, 0, 0, 0), &1u64.to_le_bytes()).unwrap_err(),
        StakeError::PoolClosed
    );
}

#[test]
fn deposit_through_foreign_delegate_is_refused() {
    let mut accounts = deposit_accounts(0, 0, 0, 1);
    accounts[1].data = Delegate { authority: [90u8; 32], balance: 0, pool: POOL }.to_bytes();
    assert_eq!(
        process_delegate(&ctx(), &accounts, &1u64.to_le_bytes()).unwrap_err(),
        StakeError::Load(LoadError::AuthorityMismatch)
    );
}

fn withdraw_accounts(delegate: u64, supply: u64, external: u64) -> Vec<AccountView> {
    vec![
        account(USER, [0u8; 32], vec![], true),
        account([17u8; 32], TOKEN, token_bytes(MINT, [91u8; 32]), false),
        account(DELEGATE, PROGRAM, delegate_bytes(delegate), false),
        account(POOL, PROGRAM, pool_bytes(supply, 1), false),
        account(PROOF, LEDGER, proof_bytes(POOL, external), false),
    ]
}

#[test]
fn withdrawing_every_share_pays_the_whole_external_balance() {
    let plan = process_withdraw(&ctx(), &withdraw_accounts(1_000, 1_000, 2_345), &1_000u64.to_le_bytes()).unwrap();
    assert_eq!(plan.len(), 3);
    assert_eq!(Delegate::from_bytes(&written(&plan, 0)).unwrap().balance, 0);
    assert_eq!(Pool::from_bytes(&written(&plan, 1)).unwrap().balance, 0);
    assert!(matches!(
        plan[2],
        Action::Invoke { call: LedgerCall::Claim { authority: 3, beneficiary: 1, amount: 2_345 }, .. }
    ));
}

#[test]
fn partial_withdrawal_pays_proportionally() {
    let plan = process_withdraw(&ctx(), &withdraw_accounts(300, 900, 1_000), &100u64.to_le_bytes()).unwrap();
    assert_eq!(Delegate::from_bytes(&written(&plan, 0)).unwrap().balance, 200);
    assert_eq!(Pool::from_bytes(&written(&plan, 1)).unwrap().balance, 800);
    assert!(matches!(
        plan[2],
        Action::Invoke { call: LedgerCall::Claim { authority: 3, beneficiary: 1, amount: 111 }, .. }
    ));
}

#[test]
fn over_withdrawal_is_refused_with_insufficient_balance() {
    assert_eq!(
        process_withdraw(&ctx(), &withdraw_accounts(1_000, 1_000, 2_000), &1_001u64.to_le_bytes()).unwrap_err(),
        StakeError::InsufficientBalance
    );
}

fn close_accounts(balance: u64) -> Vec<AccountView> {
    vec![
        account(USER, [0u8; 32], vec![], true),
        account(DELEGATE, PROGRAM, delegate_bytes(balance), false),
        account(POOL, PROGRAM, pool_bytes(0, 1), false),
    ]
}

#[test]
fn close_delegate_with_balance_is_refused() {
    assert_eq!(process_close(&ctx(), &close_accounts(5), &[]).unwrap_err(), StakeError::BalanceNotZero);
}

#[test]
fn close_empty_delegate_zeroes_it() {
    let plan = process_close(&ctx(), &close_accounts(0), &[]).unwrap();
    assert_eq!(plan.len(), 1);
    assert!(matches!(plan[0], Action::Close { account: 1, recipient: 0 }));
}

#[test]
fn open_delegate_at_derived_address() {
    let (key, bump) = pda(&[b"delegate", &USER, &POOL], &PROGRAM);
    let accounts = vec![
        account(USER, [0u8; 32], vec![], true),
        account(key, [0u8; 32], vec![], false),
        account(POOL, PROGRAM, pool_bytes(0, 1), false),
    ];
    let plan = process_open(&ctx(), &accounts, &[bump]).unwrap();
    assert_eq!(plan.len(), 2);
    assert!(matches!(plan[0], Action::Allocate { account: 1, space: 80, .. }));
    let d = Delegate::from_bytes(&written(&plan, 1)).unwrap();
    assert_eq!(d.authority, USER);
    assert_eq!(d.pool, POOL);
    assert_eq!(d.balance, 0);

    let wrong = vec![
        account(USER, [0u8; 32], vec![], true),
        account([70u8; 32], [0u8; 32], vec![], false),
        account(POOL, PROGRAM, pool_bytes(0, 1), false),
    ];
    assert_eq!(
        process_open(&ctx(), &wrong, &[bump]).unwrap_err(),
        StakeError::Load(LoadError::InvalidDerivation)
    );
}

#[test]
fn open_delegate_over_existing_account_is_refused() {
    let (key, bump) = pda(&[b"delegate", &USER, &POOL], &PROGRAM);
    let accounts = vec![
        account(USER, [0u8; 32], vec![], true),
        account(key, [0u8; 32], vec![1, 2, 3], false),
        account(POOL, PROGRAM, pool_bytes(0, 1), false),
    ];
    assert_eq!(
        process_open(&ctx(), &accounts, &[bump]).unwrap_err(),
        StakeError::Load(LoadError::AlreadyInitialized)
    );
}

#[test]
fn initialize_creates_closed_empty_pool_and_opens_position() {
    let (pool_key, pool_bump) = pda(&[b"pool", &OPERATOR], &PROGRAM);
    let (proof_key, proof_bump) = pda(&[b"proof", &pool_key], &LEDGER);
    let accounts = vec![
        account(OPERATOR, [0u8; 32], vec![], true),
        account([40u8; 32], [0u8; 32], vec![], false),
        account(pool_key, [0u8; 32], vec![], false),
        account(proof_key, [0u8; 32], vec![], false),
    ];
    let mut data = StakeInstruction::Initialize.to_vec();
    data.extend_from_slice(&[proof_bump, pool_bump]);
    let plan = process_instruction(&PROGRAM, &ctx(), &accounts, &data).unwrap();
    assert_eq!(plan.len(), 3);
    let pool = Pool::from_bytes(&written(&plan, 1)).unwrap();
    assert_eq!(pool.authority, OPERATOR);
    assert_eq!(pool.balance, 0);
    assert_eq!(pool.is_open, 0);
    assert_eq!(pool.bump, pool_bump as u64);
    assert!(matches!(plan[2], Action::Invoke { call: LedgerCall::Open { authority: 2, miner: 1 }, .. }));
    assert!(process_initialize(&ctx(), &accounts[..3], &[proof_bump, pool_bump]).is_err());
}

#[test]
fn stake_error_codes_are_distinct_by_cause() {
    assert_eq!(StakeError::PoolClosed.code(), 300);
    assert_eq!(StakeError::InsufficientBalance.code(), 301);
    assert_eq!(StakeError::BalanceNotZero.code(), 302);
    assert_eq!(StakeError::Load(LoadError::NotWritable).code(), 7);
}

#[test]
fn built_initialize_is_accepted_by_the_program() {
    let ix = ore_relay::stake::instruction::initialize(&ctx(), OPERATOR, [40u8; 32]).unwrap();
    assert_eq!(ix.accounts.len(), 7);
    let (pool_key, pool_bump) = pda(&[b"pool", &OPERATOR], &PROGRAM);
    let (_, proof_bump) = pda(&[b"proof", &pool_key], &LEDGER);
    assert_eq!(ix.data, vec![0, proof_bump, pool_bump]);
    assert_eq!(ix.accounts[4].key, [0u8; 32]);
    assert_eq!(ix.accounts[5].key, [52u8; 32]);
    assert_eq!(ix.accounts[6].key, LEDGER);
    let accounts: Vec<AccountView> = ix
        .accounts
        .iter()
        .map(|m| AccountView { key: m.key, owner: [0u8; 32], data: vec![], lamports: 0, is_signer: m.is_signer, is_writable: m.is_writable })
        .collect();
    let plan = process_instruction(&PROGRAM, &ctx(), &accounts, &ix.data).unwrap();
    assert_eq!(plan.len(), 3);
}

fn set_open_accounts(signer: [u8; 32], is_open: u64) -> Vec<AccountView> {
    vec![
        account(signer, [0u8; 32], vec![], true),
        account(POOL, PROGRAM, pool_bytes(0, is_open), false),
    ]
}

#[test]
fn operator_opens_and_closes_the_pool() {
    let plan = process_set_open(&ctx(), &set_open_accounts(OPERATOR, 0), &[1]).unwrap();
    assert_eq!(plan.len(), 1);
    let pool = Pool::from_bytes(&written(&plan, 0)).unwrap();
    assert_eq!(pool.is_open, 1);
    assert_eq!(pool.authority, OPERATOR);
    assert_eq!(pool.bump, 253);
    let mut data = StakeInstruction::SetOpen.to_vec();
    data.push(0);
    let plan = process_instruction(&PROGRAM, &ctx(), &set_open_accounts(OPERATOR, 1), &data).unwrap();
    assert_eq!(Pool::from_bytes(&written(&plan, 0)).unwrap().is_open, 0);
}

#[test]
fn only_the_operator_may_open_the_pool() {
    assert_eq!(
        process_set_open(&ctx(), &set_open_accounts(USER, 0), &[1]).unwrap_err(),
        StakeError::Load(LoadError::AuthorityMismatch)
    );
}

#[test]
fn stake_dispatch_refuses_another_program_id() {
    assert_eq!(
        process_instruction(&[200u8; 32], &ctx(), &set_open_accounts(OPERATOR, 0), &[5, 1]).unwrap_err(),
        StakeError::IncorrectProgramId
    );
}
