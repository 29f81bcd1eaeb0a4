use ore_relay::error::StakeError;
use ore_relay::stake::ledger::{
    saturating_add, saturating_sub, shares_for_deposit, value_of_shares,
};
use ore_relay::stake::state::{Delegate, Pool};

fn pool(balance: u64) -> Pool {
    Pool { authority: [7u8; 32], balance, bump: 254, is_open: 1 }
}

fn delegate(balance: u64) -> Delegate {
    Delegate { authority: [8u8; 32], balance, pool: [9u8; 32] }
}

#[test]
fn first_deposit_into_empty_pool_mints_amount() {
    assert_eq!(shares_for_deposit(1_000, 0, 0), 1_000);
    assert_eq!(shares_for_deposit(1_000, 0, 5_000), 1_000);
    assert_eq!(shares_for_deposit(1_000, 400, 0), 1_000);
}

#[test]
fn deposit_after_external_balance_doubled_mints_half() {
    let a = 1_000u64;
    let minted = shares_for_deposit(a, a, 2 * a);
    assert_eq!(minted, a * a / (2 * a));
    assert_eq!(minted, 500);
    assert!(minted < a);
    assert_eq!(shares_for_deposit(7, 7, 14), 3);
}

#[test]
fn deposit_shares_truncate() {
    assert_eq!(shares_for_deposit(7, 3, 2), 10);
    assert_eq!(shares_for_deposit(1, 3, 10), 0);
}

#[test]
fn deposit_shares_clamp_instead_of_overflowing() {
    assert_eq!(shares_for_deposit(u64::MAX, u64::MAX, 1), u64::MAX);
    assert_eq!(shares_for_deposit(u64::MAX, u64::MAX, u64::MAX), u64::MAX);
}

#[test]
fn value_of_all_shares_is_whole_external_balance() {
    assert_eq!(value_of_shares(1_000, 1_000, 2_000), 2_000);
    assert_eq!(value_of_shares(u64::MAX, u64::MAX, u64::MAX), u64::MAX);
}

#[test]
fn value_of_shares_truncates_and_handles_empty_supply() {
    assert_eq!(value_of_shares(1, 3, 10), 3);
    assert_eq!(value_of_shares(5, 0, 10), 0);
    assert_eq!(value_of_shares(0, 3, 10), 0);
}

#[test]
fn depositor_values_add_up_to_external_balance_within_truncation() {
    let balances = [1u64, 1, 1];
    let supply: u64 = balances.iter().sum();
    let external = 10u64;
    let total: u64 = balances.iter().map(|b| value_of_shares(*b, supply, external)).sum();
    assert_eq!(total, 9);
    assert!(total <= external);
    assert!(external < total + balances.len() as u64);

    let balances = [500u64, 250, 250];
    let supply: u64 = balances.iter().sum();
    let total: u64 = balances.iter().map(|b| value_of_shares(*b, supply, 4_000)).sum();
    assert_eq!(total, 4_000);
}

#[test]
fn saturating_arithmetic_clamps() {
    assert_eq!(saturating_add(u64::MAX - 1, 5), u64::MAX);
    assert_eq!(saturating_add(2, 3), 5);
    assert_eq!(saturating_sub(2, 3), 0);
    assert_eq!(saturating_sub(9, 3), 6);
}

#[test]
fn pool_deposit_credits_delegate_and_supply() {
    let mut p = pool(0);
    let mut d = delegate(0);
    assert_eq!(p.deposit(&mut d, 1_000, 0), 1_000);
    assert_eq!(p.balance, 1_000);
    assert_eq!(d.balance, 1_000);
    let mut e = delegate(0);
    assert_eq!(p.deposit(&mut e, 1_000, 2_000), 500);
    assert_eq!(p.balance, 1_500);
    assert_eq!(e.balance, 500);
    assert_eq!(p.bump, 254);
    assert_eq!(e.authority, [8u8; 32]);
}

#[test]
fn pool_withdraw_all_shares_empties_supply() {
    let mut p = pool(1_000);
    let mut d = delegate(1_000);
    assert_eq!(p.withdraw(&mut d, 1_000, 2_000), Ok(2_000));
    assert_eq!(p.balance, 0);
    assert_eq!(d.balance, 0);
}

#[test]
fn pool_over_withdrawal_is_refused_and_changes_nothing() {
    let mut p = pool(1_000);
    let mut d = delegate(400);
    assert_eq!(p.withdraw(&mut d, 401, 2_000), Err(StakeError::InsufficientBalance));
    assert_eq!(p.balance, 1_000);
    assert_eq!(d.balance, 400);
}
