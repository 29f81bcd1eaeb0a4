use ore_relay::account::{AccountView, Action, Context, LedgerCall};
use ore_relay::error::{LoadError, RelayError};
use ore_relay::relay::instruction::RelayInstruction;
use ore_relay::relay::processor::{
    process_claim, process_close_escrow, process_collect, process_instruction,
    process_open_escrow, process_open_relayer, process_stake, process_update_miner,
    settle_open_escrow,
};
use ore_relay::relay::state::{Escrow, Relayer};
use solana_program::pubkey::Pubkey;

const PROGRAM: [u8; 32] = [1u8; 32];
const LEDGER: [u8; 32] = [2u8; 32];
const TOKEN: [u8; 32] = [3u8; 32];
const MINT: [u8; 32] = [4u8; 32];
const ADMIN: [u8; 32] = [5u8; 32];
const USER: [u8; 32] = [11u8; 32];
const MINER: [u8; 32] = [12u8; 32];
const RELAYER: [u8; 32] = [13u8; 32];
const ESCROW: [u8; 32] = [14u8; 32];
const PROOF: [u8; 32] = [15u8; 32];
const BENEFICIARY: [u8; 32] = [16u8; 32];

fn ctx() -> Context {
    Context { program_id: PROGRAM, ledger_program: LEDGER, token_program: TOKEN, mint: MINT, admin: ADMIN, treasury: [50u8; 32], treasury_tokens: [51u8; 32], slot_hashes: [52u8; 32] }
}

fn account(key: [u8; 32], owner: [u8; 32], data: Vec<u8>, is_signer: bool) -> AccountView {
    AccountView { key, owner, data, lamports: 1_000_000, is_signer, is_writable: true }
}

fn proof_bytes(authority: [u8; 32], balance: u64, last_hash: [u8; 32]) -> Vec<u8> {
    let mut d = vec![0u8; 176];
    d[0] = 102;
    d[8..40].copy_from_slice(&authority);
    d[40..48].copy_from_slice(&balance.to_le_bytes());
    d[80..112].copy_from_slice(&last_hash);
    d
}

fn token_bytes(mint: [u8; 32], owner: [u8; 32]) -> Vec<u8> {
    let mut d = vec![0u8; 165];
    d[0..32].copy_from_slice(&mint);
    d[32..64].copy_from_slice(&owner);
    d[108] = 1;
    d
}

fn escrow_bytes(last_hash: [u8; 32]) -> Vec<u8> {
    Escrow { authority: USER, bump: 251, last_hash, relayer: RELAYER }.to_bytes()
}

fn relayer_bytes(commission: u64) -> Vec<u8> {
    Relayer { authority: ADMIN, bump: 250, commission, miner: MINER }.to_bytes()
}

fn collect_accounts(escrow_data: Vec<u8>, balance: u64, hash: [u8; 32]) -> Vec<AccountView> {
    vec![
        account(MINER, [0u8; 32], vec![], true),
        account(BENEFICIARY, TOKEN, token_bytes(MINT, [99u8; 32]), false),
        account(ESCROW, PROGRAM, escrow_data, false),
        account(PROOF, LEDGER, proof_bytes(ESCROW, balance, hash), false),
        account(RELAYER, PROGRAM, relayer_bytes(100), false),
    ]
}

fn pda(seeds: &[&[u8]], program: &[u8; 32]) -> ([u8; 32], u8) {
    let (k, b) = Pubkey::find_program_address(seeds, &Pubkey::new_from_array(*program));
    (k.to_bytes(), b)
}

#[test]
fn collect_twice_on_same_fingerprint_is_refused_the_second_time() {
    let fee = 5_000u64.to_le_bytes();
    let accounts = collect_accounts(escrow_bytes([0u8; 32]), 500, [9u8; 32]);
    let plan = process_collect(&ctx(), &accounts, &fee).unwrap();
    assert_eq!(plan.len(), 3);
    let written = match &plan[0] {
        Action::Write { account: 2, data } => data.clone(),
        other => panic!("unexpected first effect {:?}", other),
    };
    let e = Escrow::from_bytes(&written).unwrap();
    assert_eq!(e.last_hash, [9u8; 32]);
    assert_eq!(e.authority, USER);
    assert_eq!(e.relayer, RELAYER);
    assert_eq!(e.bump, 251);
    match &plan[1] {
        Action::Invoke { call, .. } => {
            assert_eq!(*call, LedgerCall::Claim { authority: 2, beneficiary: 1, amount: 100 })
        },
        other => panic!("unexpected second effect {:?}", other),
    }
    assert!(matches!(plan[2], Action::Pay { from: 2, to: 0, amount: 5_000 }));

    let again = collect_accounts(written, 500, [9u8; 32]);
    assert_eq!(process_collect(&ctx(), &again, &fee).unwrap_err(), RelayError::AlreadyCollected);
}

#[test]
fn collect_below_commission_moves_watermark_without_transfer() {
    let accounts = collect_accounts(escrow_bytes([0u8; 32]), 99, [9u8; 32]);
    let plan = process_collect(&ctx(), &accounts, &0u64.to_le_bytes()).unwrap();
    assert_eq!(plan.len(), 1);
    assert!(matches!(plan[0], Action::Write { account: 2, .. }));
}

#[test]
fn collect_by_other_than_the_relayer_miner_is_refused() {
    let mut accounts = collect_accounts(escrow_bytes([0u8; 32]), 500, [9u8; 32]);
    accounts[0].key = [77u8; 32];
    assert_eq!(
        process_collect(&ctx(), &accounts, &0u64.to_le_bytes()).unwrap_err(),
        RelayError::NotDesignatedMiner
    );
}

#[test]
fn collect_fee_beyond_escrow_funds_is_refused() {
    let accounts = collect_accounts(escrow_bytes([0u8; 32]), 500, [9u8; 32]);
    assert_eq!(
        process_collect(&ctx(), &accounts, &2_000_000u64.to_le_bytes()).unwrap_err(),
        RelayError::InsufficientFunds
    );
}

#[test]
fn collect_without_miner_signature_is_refused() {
    let mut accounts = collect_accounts(escrow_bytes([0u8; 32]), 500, [9u8; 32]);
    accounts[0].is_signer = false;
    assert_eq!(
        process_collect(&ctx(), &accounts, &0u64.to_le_bytes()).unwrap_err(),
        RelayError::Load(LoadError::MissingSignature)
    );
}

fn close_accounts(balance: u64) -> Vec<AccountView> {
    vec![
        account(USER, [0u8; 32], vec![], true),
        account(ESCROW, PROGRAM, escrow_bytes([0u8; 32]), false),
        account(PROOF, LEDGER, proof_bytes(ESCROW, balance, [0u8; 32]), false),
    ]
}

#[test]
fn close_escrow_with_external_balance_is_refused() {
    assert_eq!(
        process_close_escrow(&ctx(), &close_accounts(1), &[]).unwrap_err(),
        RelayError::BalanceNotZero
    );
}

#[test]
fn close_empty_escrow_zeroes_it() {
    let plan = process_close_escrow(&ctx(), &close_accounts(0), &[]).unwrap();
    assert_eq!(plan.len(), 2);
    assert!(matches!(plan[0], Action::Invoke { call: LedgerCall::Close { authority: 1 }, .. }));
    assert!(matches!(plan[1], Action::Close { account: 1, recipient: 0 }));
}

#[test]
fn close_escrow_of_another_user_is_refused() {
    let mut accounts = close_accounts(0);
    accounts[0].key = [66u8; 32];
    assert_eq!(
        process_close_escrow(&ctx(), &accounts, &[]).unwrap_err(),
        RelayError::Load(LoadError::AuthorityMismatch)
    );
}

fn open_escrow_accounts(escrow_key: [u8; 32], proof_key: [u8; 32]) -> Vec<AccountView> {
    vec![
        account(USER, [0u8; 32], vec![], true),
        account(MINER, [0u8; 32], vec![], true),
        account(escrow_key, [0u8; 32], vec![], false),
        account(proof_key, [0u8; 32], vec![], false),
        account(RELAYER, PROGRAM, relayer_bytes(100), false),
    ]
}

#[test]
fn open_escrow_at_derived_address_allocates_writes_then_opens() {
    let (escrow_key, escrow_bump) = pda(&[b"escrow", &USER, &RELAYER], &PROGRAM);
    let (proof_key, proof_bump) = pda(&[b"proof", &escrow_key], &LEDGER);
    let accounts = open_escrow_accounts(escrow_key, proof_key);
    let plan = process_open_escrow(&ctx(), &accounts, &[escrow_bump, proof_bump]).unwrap();
    assert_eq!(plan.len(), 3);
    match &plan[0] {
        Action::Allocate { account, owner, space, seeds } => {
            assert_eq!(*account, 2);
            assert_eq!(*owner, PROGRAM);
            assert_eq!(*space, 112);
            assert_eq!(seeds.len(), 4);
            assert_eq!(seeds[0], b"escrow".to_vec());
            assert_eq!(seeds[3], vec![escrow_bump]);
        },
        other => panic!("unexpected first effect {:?}", other),
    }
    match &plan[1] {
        Action::Write { account: 2, data } => {
            let e = Escrow::from_bytes(data).unwrap();
            assert_eq!(e.authority, USER);
            assert_eq!(e.relayer, RELAYER);
            assert_eq!(e.bump, escrow_bump as u64);
            assert_eq!(e.last_hash, [0u8; 32]);
        },
        other => panic!("unexpected second effect {:?}", other),
    }
    assert!(matches!(plan[2], Action::Invoke { call: LedgerCall::Open { authority: 2, miner: 1 }, .. }));
}

#[test]
fn open_escrow_at_wrong_address_is_refused_before_any_write() {
    let (escrow_key, escrow_bump) = pda(&[b"escrow", &USER, &RELAYER], &PROGRAM);
    let (_, proof_bump) = pda(&[b"proof", &escrow_key], &LEDGER);
    let accounts = open_escrow_accounts(escrow_key, [42u8; 32]);
    assert_eq!(
        process_open_escrow(&ctx(), &accounts, &[escrow_bump, proof_bump]).unwrap_err(),
        RelayError::Load(LoadError::InvalidDerivation)
    );
    let (proof_key, proof_bump) = pda(&[b"proof", &[43u8; 32]], &LEDGER);
    let accounts = open_escrow_accounts([43u8; 32], proof_key);
    assert_eq!(
        process_open_escrow(&ctx(), &accounts, &[escrow_bump, proof_bump]).unwrap_err(),
        RelayError::Load(LoadError::InvalidDerivation)
    );
}

#[test]
fn open_escrow_with_foreign_miner_is_refused() {
    let (escrow_key, escrow_bump) = pda(&[b"escrow", &USER, &RELAYER], &PROGRAM);
    let (proof_key, proof_bump) = pda(&[b"proof", &escrow_key], &LEDGER);
    let mut accounts = open_escrow_accounts(escrow_key, proof_key);
    accounts[1].key = [55u8; 32];
    assert_eq!(
        process_open_escrow(&ctx(), &accounts, &[escrow_bump, proof_bump]).unwrap_err(),
        RelayError::MinerMismatch
    );
}

#[test]
fn open_relayer_only_by_admin() {
    let (relayer_key, bump) = pda(&[b"relayer", &ADMIN], &PROGRAM);
    let data = vec![bump];
    let accounts = vec![
        account(ADMIN, [0u8; 32], vec![], true),
        account(MINER, [0u8; 32], vec![], false),
        account(relayer_key, [0u8; 32], vec![], false),
    ];
    let plan = process_open_relayer(&ctx(), &accounts, &data).unwrap();
    assert_eq!(plan.len(), 2);
    match &plan[1] {
        Action::Write { account: 2, data } => {
            let r = Relayer::from_bytes(data).unwrap();
            assert_eq!(r.authority, ADMIN);
            assert_eq!(r.commission, 1_100);
            assert_eq!(r.miner, MINER);
            assert_eq!(r.bump, bump as u64);
        },
        other => panic!("unexpected effect {:?}", other),
    }

    let (other_key, other_bump) = pda(&[b"relayer", &USER], &PROGRAM);
    let data = vec![other_bump];
    let accounts = vec![
        account(USER, [0u8; 32], vec![], true),
        account(MINER, [0u8; 32], vec![], false),
        account(other_key, [0u8; 32], vec![], false),
    ];
    assert_eq!(
        process_open_relayer(&ctx(), &accounts, &data).unwrap_err(),
        RelayError::UnauthorizedRelayer
    );
}

fn claim_accounts() -> Vec<AccountView> {
    vec![
        account(USER, [0u8; 32], vec![], true),
        account(BENEFICIARY, TOKEN, token_bytes(MINT, [99u8; 32]), false),
        account(ESCROW, PROGRAM, escrow_bytes([0u8; 32]), false),
        account(PROOF, LEDGER, proof_bytes(ESCROW, 10, [0u8; 32]), false),
    ]
}

#[test]
fn claim_invokes_ledger_claim_signed_by_escrow() {
    let plan = process_claim(&ctx(), &claim_accounts(), &777u64.to_le_bytes()).unwrap();
    assert_eq!(plan.len(), 1);
    match &plan[0] {
        Action::Invoke { call, seeds } => {
            assert_eq!(*call, LedgerCall::Claim { authority: 2, beneficiary: 1, amount: 777 });
            assert_eq!(seeds.clone(), vec![b"escrow".to_vec(), USER.to_vec(), RELAYER.to_vec(), vec![251u8]]);
        },
        other => panic!("unexpected effect {:?}", other),
    }
}

#[test]
fn claim_with_wrong_account_owner_or_shape_is_refused() {
    let mut accounts = claim_accounts();
    accounts[2].owner = [44u8; 32];
    assert_eq!(
        process_claim(&ctx(), &accounts, &1u64.to_le_bytes()).unwrap_err(),
        RelayError::Load(LoadError::OwnerMismatch)
    );
    let mut accounts = claim_accounts();
    accounts[2].data = vec![];
    assert_eq!(
        process_claim(&ctx(), &accounts, &1u64.to_le_bytes()).unwrap_err(),
        RelayError::Load(LoadError::Uninitialized)
    );
    let mut accounts = claim_accounts();
    accounts[2].data[0] = 101;
    assert_eq!(
        process_claim(&ctx(), &accounts, &1u64.to_le_bytes()).unwrap_err(),
        RelayError::Load(LoadError::ShapeMismatch)
    );
    let mut accounts = claim_accounts();
    accounts[2].is_writable = false;
    assert_eq!(
        process_claim(&ctx(), &accounts, &1u64.to_le_bytes()).unwrap_err(),
        RelayError::Load(LoadError::NotWritable)
    );
    let mut accounts = claim_accounts();
    accounts[3].data = proof_bytes([45u8; 32], 10, [0u8; 32]);
    assert_eq!(
        process_claim(&ctx(), &accounts, &1u64.to_le_bytes()).unwrap_err(),
        RelayError::Load(LoadError::AuthorityMismatch)
    );
    let mut accounts = claim_accounts();
    accounts[1].data[108] = 0;
    assert_eq!(
        process_claim(&ctx(), &accounts, &1u64.to_le_bytes()).unwrap_err(),
        RelayError::Load(LoadError::ShapeMismatch)
    );
}

#[test]
fn claim_with_bad_payload_or_too_few_accounts_is_refused() {
    assert_eq!(
        process_claim(&ctx(), &claim_accounts(), &[1, 2, 3]).unwrap_err(),
        RelayError::InvalidInstruction
    );
    assert_eq!(
        process_claim(&ctx(), &claim_accounts()[..3], &1u64.to_le_bytes()).unwrap_err(),
        RelayError::NotEnoughAccounts
    );
}

#[test]
fn stake_moves_tokens_then_stakes_them() {
    let accounts = vec![
        account(USER, [0u8; 32], vec![], true),
        account(ESCROW, PROGRAM, escrow_bytes([0u8; 32]), false),
        account([20u8; 32], TOKEN, token_bytes(MINT, ESCROW), false),
        account(PROOF, LEDGER, proof_bytes(ESCROW, 0, [0u8; 32]), false),
        account([21u8; 32], TOKEN, token_bytes(MINT, USER), false),
    ];
    let plan = process_stake(&ctx(), &accounts, &300u64.to_le_bytes()).unwrap();
    assert_eq!(plan.len(), 2);
    assert!(matches!(plan[0], Action::Transfer { from: 4, to: 2, amount: 300 }));
    assert!(matches!(
        plan[1],
        Action::Invoke { call: LedgerCall::Stake { authority: 1, sender: 2, amount: 300 }, .. }
    ));

    let mut foreign = accounts.clone();
    foreign[4].data = token_bytes(MINT, [88u8; 32]);
    assert_eq!(
        process_stake(&ctx(), &foreign, &300u64.to_le_bytes()).unwrap_err(),
        RelayError::Load(LoadError::AuthorityMismatch)
    );
}

#[test]
fn update_miner_invokes_ledger_update() {
    let accounts = vec![
        account(USER, [0u8; 32], vec![], true),
        account(ESCROW, PROGRAM, escrow_bytes([0u8; 32]), false),
        account([30u8; 32], [0u8; 32], vec![], false),
        account(PROOF, LEDGER, proof_bytes(ESCROW, 0, [0u8; 32]), false),
    ];
    let plan = process_update_miner(&ctx(), &accounts, &[]).unwrap();
    assert_eq!(plan.len(), 1);
    assert!(matches!(
        plan[0],
        Action::Invoke { call: LedgerCall::UpdateMiner { authority: 1, miner: 2 }, .. }
    ));
}

#[test]
fn dispatch_routes_by_tag_and_refuses_unknown_tags() {
    let mut data = RelayInstruction::Claim.to_vec();
    data.extend_from_slice(&5u64.to_le_bytes());
    let plan = process_instruction(&PROGRAM, &ctx(), &claim_accounts(), &data).unwrap();
    assert!(matches!(
        plan[0],
        Action::Invoke { call: LedgerCall::Claim { authority: 2, beneficiary: 1, amount: 5 }, .. }
    ));
    assert_eq!(
        process_instruction(&PROGRAM, &ctx(), &claim_accounts(), &[]).unwrap_err(),
        RelayError::InvalidInstruction
    );
    assert_eq!(
        process_instruction(&PROGRAM, &ctx(), &claim_accounts(), &[77]).unwrap_err(),
        RelayError::InvalidInstruction
    );
}

#[test]
fn error_codes_are_distinct_by_cause() {
    assert_eq!(RelayError::Load(LoadError::MissingSignature).code(), 1);
    assert_eq!(RelayError::Load(LoadError::InvalidDerivation).code(), 8);
    assert_eq!(RelayError::NotEnoughAccounts.code(), 100);
    assert_eq!(RelayError::AlreadyCollected.code(), 203);
    assert_eq!(RelayError::BalanceNotZero.code(), 205);
}

#[test]
fn built_open_escrow_is_accepted_by_the_program() {
    let ix = ore_relay::relay::instruction::open_escrow(&ctx(), USER, MINER, RELAYER).unwrap();
    assert_eq!(ix.program_id, PROGRAM);
    assert_eq!(ix.data[0], 2);
    let (escrow_key, escrow_bump) = pda(&[b"escrow", &USER, &RELAYER], &PROGRAM);
    assert_eq!(ix.accounts[2].key, escrow_key);
    assert_eq!(ix.data[1], escrow_bump);
    assert_eq!(ix.accounts.len(), 8);
    assert_eq!(ix.accounts[6].key, [52u8; 32]);
    let accounts: Vec<AccountView> = ix
        .accounts
        .iter()
        .map(|m| {
            let (owner, data) = if m.key == RELAYER { (PROGRAM, relayer_bytes(100)) } else { ([0u8; 32], vec![]) };
            AccountView { key: m.key, owner, data, lamports: 0, is_signer: m.is_signer, is_writable: m.is_writable }
        })
        .collect();
    let plan = process_instruction(&PROGRAM, &ctx(), &accounts, &ix.data).unwrap();
    assert_eq!(plan.len(), 3);
}

#[test]
fn built_claim_and_collect_name_the_derived_escrow() {
    let (escrow_key, _) = pda(&[b"escrow", &USER, &RELAYER], &PROGRAM);
    let (proof_key, _) = pda(&[b"proof", &escrow_key], &LEDGER);
    let ix = ore_relay::relay::instruction::claim(&ctx(), USER, BENEFICIARY, RELAYER, 40).unwrap();
    assert_eq!(ix.accounts.len(), 8);
    assert_eq!(ix.accounts[4].key, [50u8; 32]);
    assert!(ix.accounts[5].is_writable);
    assert_eq!(ix.accounts[5].key, [51u8; 32]);
    assert_eq!(ix.accounts[6].key, LEDGER);
    assert_eq!(ix.accounts[7].key, TOKEN);
    assert_eq!(ix.accounts[2].key, escrow_key);
    assert_eq!(ix.accounts[3].key, proof_key);
    let mut expected = vec![0u8];
    expected.extend_from_slice(&40u64.to_le_bytes());
    assert_eq!(ix.data, expected);
    let ix = ore_relay::relay::instruction::collect(&ctx(), MINER, USER, RELAYER, BENEFICIARY, 9).unwrap();
    assert_eq!(ix.accounts[2].key, escrow_key);
    assert_eq!(ix.accounts.len(), 10);
    assert_eq!(ix.accounts[4].key, RELAYER);
    assert_eq!(ix.accounts[7].key, [0u8; 32]);
    assert!(ix.accounts[0].is_signer);
    assert_eq!(ix.data[0], 101);
    let ix = ore_relay::relay::instruction::stake(&ctx(), USER, RELAYER, [20u8; 32], [21u8; 32], 3).unwrap();
    assert_eq!(ix.accounts.len(), 8);
    assert_eq!(ix.accounts[1].key, escrow_key);
    assert_eq!(ix.accounts[3].key, proof_key);
    assert_eq!(ix.accounts[7].key, TOKEN);
    assert_eq!(ix.data[0], 3);
}

#[test]
fn settled_escrow_owes_no_commission_before_the_first_accrual() {
    let (escrow_key, escrow_bump) = pda(&[b"escrow", &USER, &RELAYER], &PROGRAM);
    let (proof_key, proof_bump) = pda(&[b"proof", &escrow_key], &LEDGER);
    let mut accounts = open_escrow_accounts(escrow_key, proof_key);
    let plan = process_open_escrow(&ctx(), &accounts, &[escrow_bump, proof_bump]).unwrap();
    let record = match &plan[1] {
        Action::Write { data, .. } => data.clone(),
        other => panic!("unexpected effect {:?}", other),
    };
    accounts[2].owner = PROGRAM;
    accounts[2].data = record;
    accounts[3].owner = LEDGER;
    accounts[3].data = proof_bytes(escrow_key, 5_000, [6u8; 32]);
    let settled = settle_open_escrow(&ctx(), &accounts).unwrap();
    let record = match &settled[0] {
        Action::Write { account: 2, data } => data.clone(),
        other => panic!("unexpected effect {:?}", other),
    };
    let e = Escrow::from_bytes(&record).unwrap();
    assert_eq!(e.last_hash, [6u8; 32]);
    assert_eq!(e.authority, USER);

    let mut collecting = collect_accounts(record, 5_000, [6u8; 32]);
    collecting[2].key = escrow_key;
    collecting[3].data = proof_bytes(escrow_key, 5_000, [6u8; 32]);
    assert_eq!(
        process_collect(&ctx(), &collecting, &0u64.to_le_bytes()).unwrap_err(),
        RelayError::AlreadyCollected
    );
}

#[test]
fn relay_dispatch_refuses_another_program_id() {
    let mut data = RelayInstruction::Claim.to_vec();
    data.extend_from_slice(&5u64.to_le_bytes());
    assert_eq!(
        process_instruction(&[200u8; 32], &ctx(), &claim_accounts(), &data).unwrap_err(),
        RelayError::IncorrectProgramId
    );
}

#[test]
fn relayer_payload_with_commission_bytes_is_refused() {
    let (relayer_key, bump) = pda(&[b"relayer", &ADMIN], &PROGRAM);
    let mut data = vec![bump];
    data.extend_from_slice(&7u64.to_le_bytes());
    let accounts = vec![
        account(ADMIN, [0u8; 32], vec![], true),
        account(MINER, [0u8; 32], vec![], false),
        account(relayer_key, [0u8; 32], vec![], false),
    ];
    assert_eq!(
        process_open_relayer(&ctx(), &accounts, &data).unwrap_err(),
        RelayError::InvalidInstruction
    );
}
