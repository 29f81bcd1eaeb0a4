use ore_relay::board::Board;
use ore_relay::ledger::ProofView;
use ore_relay::relay::instruction::{ClaimArgs, OpenEscrowArgs, OpenRelayerArgs, RelayInstruction};
use ore_relay::relay::state::{AccountDiscriminator, Escrow, Relayer};
use ore_relay::stake::instruction::{StakeInstruction, WithdrawArgs};
use ore_relay::stake::state::{Delegate, Pool};

#[test]
fn escrow_round_trips_through_bytes() {
    let e = Escrow { authority: [1u8; 32], bump: 0x0102_0304_0506_0708, last_hash: [2u8; 32], relayer: [3u8; 32] };
    let bytes = e.to_bytes();
    assert_eq!(bytes.len(), 112);
    assert_eq!(bytes[0], 100);
    assert_eq!(&bytes[40..48], &[8, 7, 6, 5, 4, 3, 2, 1]);
    let d = Escrow::from_bytes(&bytes).unwrap();
    assert_eq!(d.authority, e.authority);
    assert_eq!(d.bump, e.bump);
    assert_eq!(d.last_hash, e.last_hash);
    assert_eq!(d.relayer, e.relayer);
}

#[test]
fn escrow_default_is_zeroed() {
    let e = Escrow::default();
    assert_eq!(e.authority, [0u8; 32]);
    assert_eq!(e.bump, 0);
    assert_eq!(e.last_hash, [0u8; 32]);
}

#[test]
fn records_refuse_wrong_tag_or_length() {
    let bytes = Escrow::default().to_bytes();
    assert!(Escrow::from_bytes(&bytes[..111]).is_none());
    let mut wrong = bytes.clone();
    wrong[0] = 101;
    assert!(Escrow::from_bytes(&wrong).is_none());
    assert!(Relayer::from_bytes(&bytes).is_none());
    assert!(Pool::from_bytes(&[]).is_none());
}

#[test]
fn relayer_delegate_and_pool_round_trip() {
    let r = Relayer { authority: [4u8; 32], bump: 9, commission: 1_100, miner: [5u8; 32] };
    let d = Relayer::from_bytes(&r.to_bytes()).unwrap();
    assert_eq!((d.authority, d.bump, d.commission, d.miner), (r.authority, r.bump, r.commission, r.miner));
    let g = Delegate { authority: [6u8; 32], balance: 77, pool: [7u8; 32] };
    let h = Delegate::from_bytes(&g.to_bytes()).unwrap();
    assert_eq!((h.authority, h.balance, h.pool), (g.authority, g.balance, g.pool));
    let p = Pool { authority: [8u8; 32], balance: u64::MAX, bump: 3, is_open: 1 };
    let q = Pool::from_bytes(&p.to_bytes()).unwrap();
    assert_eq!((q.authority, q.balance, q.bump, q.is_open), (p.authority, p.balance, p.bump, p.is_open));
}

#[test]
fn proof_fields_are_read_from_ledger_layout() {
    let mut d = vec![0u8; 176];
    d[0] = 102;
    d[8..40].copy_from_slice(&[3u8; 32]);
    d[40..48].copy_from_slice(&123_456u64.to_le_bytes());
    d[80..112].copy_from_slice(&[4u8; 32]);
    let p = ProofView::from_bytes(&d).unwrap();
    assert_eq!(p.authority, [3u8; 32]);
    assert_eq!(p.balance, 123_456);
    assert_eq!(p.last_hash, [4u8; 32]);
    assert!(ProofView::from_bytes(&d[..175]).is_none());
}

#[test]
fn discriminators_and_tags() {
    assert_eq!(AccountDiscriminator::Escrow.to_u8(), 100);
    assert_eq!(AccountDiscriminator::from_u8(101), Some(AccountDiscriminator::Relayer));
    assert_eq!(AccountDiscriminator::from_u8(7), None);
    assert_eq!(
        ore_relay::stake::state::AccountDiscriminator::Pool.to_u8(),
        101
    );
    assert_eq!(RelayInstruction::Collect.to_vec(), vec![101]);
    assert_eq!(RelayInstruction::from_u8(102), Some(RelayInstruction::UpdateMiner));
    assert_eq!(StakeInstruction::from_u8(3), Some(StakeInstruction::Withdraw));
    assert_eq!(StakeInstruction::from_u8(9), None);
}

#[test]
fn argument_records_parse_exact_sizes() {
    assert_eq!(ClaimArgs::try_from_bytes(&42u64.to_le_bytes()).unwrap().amount, 42);
    assert!(ClaimArgs::try_from_bytes(&[1, 2]).is_none());
    assert_eq!(ClaimArgs { amount: 9 }.to_bytes(), 9u64.to_le_bytes().to_vec());
    let o = OpenEscrowArgs::try_from_bytes(&[5, 6]).unwrap();
    assert_eq!((o.escrow_bump, o.proof_bump), (5, 6));
    assert_eq!(OpenRelayerArgs::try_from_bytes(&[4]).unwrap().bump, 4);
    assert!(OpenRelayerArgs::try_from_bytes(&[4, 0]).is_none());
    assert_eq!(WithdrawArgs::try_from_bytes(&7u64.to_le_bytes()).unwrap().amount, 7);
}

#[test]
fn new_board_is_zeroed() {
    let b = Board::new(9);
    assert_eq!(b.bump, 9);
    assert!(b.state.iter().all(|x| *x == 0));
    let bytes = b.to_bytes();
    assert_eq!(bytes.len(), 1040);
    assert_eq!(bytes[8], 9);
}
