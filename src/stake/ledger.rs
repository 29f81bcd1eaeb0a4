//! The proportional share ledger: converts between a pool's external balance
//! and the shares its depositors hold. Divisions truncate; balances saturate.

use crate::error::StakeError;
use crate::stake::state::{Delegate, Pool};
use vstd::prelude::*;

verus! {

/// `a + b`, clamped to the largest `u64`.
pub open spec fn sat_add(a: u64, b: u64) -> u64 {
    if a + b > u64::MAX {
        u64::MAX
    } else {
        (a + b) as u64
    }
}

/// `a - b`, clamped at zero.
pub open spec fn sat_sub(a: u64, b: u64) -> u64 {
    if a < b {
        0
    } else {
        (a - b) as u64
    }
}

/// `x`, clamped to the largest `u64`.
pub open spec fn clamp(x: int) -> u64 {
    if x > u64::MAX {
        u64::MAX
    } else {
        x as u64
    }
}

/// The shares minted for a deposit of `amount` into a pool with `supply`
/// shares outstanding and `external` units in its external position: `amount`
/// while either is zero, else `floor(supply * amount / external)`.
pub open spec fn shares_for(amount: u64, supply: u64, external: u64) -> u64 {
    if supply == 0 || external == 0 {
        amount
    } else {
        clamp((supply * amount) / (external as int))
    }
}

/// The external units that `shares` of a pool with `supply` shares and
/// `external` units are worth: `floor(external * shares / supply)`, and
/// nothing while no shares are outstanding.
pub open spec fn value_of(shares: u64, supply: u64, external: u64) -> u64 {
    if supply == 0 {
        0
    } else {
        clamp((external * shares) / (supply as int))
    }
}

/// `a + b`, clamped to the largest `u64`.
pub fn saturating_add(a: u64, b: u64) -> (r: u64)
    ensures
        r == sat_add(a, b),
{
    if a > u64::MAX - b {
        u64::MAX
    } else {
        a + b
    }
}

/// `a - b`, clamped at zero.
pub fn saturating_sub(a: u64, b: u64) -> (r: u64)
    ensures
        r == sat_sub(a, b),
{
    if a < b {
        0
    } else {
        a - b
    }
}

/// `floor(x * y / d)`, clamped to the largest `u64`.
fn mul_div(x: u64, y: u64, d: u64) -> (r: u64)
    requires
        d > 0,
    ensures
        r == clamp((x * y) / (d as int)),
{
    let xx = x as u128;
    let yy = y as u128;
    assert(xx * yy <= u64::MAX * u64::MAX) by (nonlinear_arith)
        requires
            xx <= u64::MAX,
            yy <= u64::MAX,
    ;
    let q = (xx * yy) / (d as u128);
    if q > u64::MAX as u128 {
        u64::MAX
    } else {
        q as u64
    }
}

/// The shares minted for a deposit of `amount`; see [`shares_for`].
pub fn shares_for_deposit(amount: u64, supply: u64, external: u64) -> (r: u64)
    ensures
        r == shares_for(amount, supply, external),
{
    if supply == 0 || external == 0 {
        amount
    } else {
        mul_div(supply, amount, external)
    }
}

/// The external units that `shares` are worth; see [`value_of`].
pub fn value_of_shares(shares: u64, supply: u64, external: u64) -> (r: u64)
    ensures
        r == value_of(shares, supply, external),
{
    if supply == 0 {
        0
    } else {
        mul_div(external, shares, supply)
    }
}

impl Pool {
    /// Credits a deposit of `amount` external units, with `external` units in
    /// the pool's position before it: mints the shares it buys to `delegate`
    /// and to the pool's supply, and returns their number.
    pub fn deposit(&mut self, delegate: &mut Delegate, amount: u64, external: u64) -> (minted: u64)
        ensures
            minted == shares_for(amount, old(self).balance, external),
            final(self).balance == sat_add(old(self).balance, minted),
            final(delegate).balance == sat_add(old(delegate).balance, minted),
            final(self).authority == old(self).authority,
            final(self).bump == old(self).bump,
            final(self).is_open == old(self).is_open,
            final(delegate).authority == old(delegate).authority,
            final(delegate).pool == old(delegate).pool,
    {
        let minted = shares_for_deposit(amount, self.balance, external);
        self.balance = saturating_add(self.balance, minted);
        delegate.balance = saturating_add(delegate.balance, minted);
        minted
    }

    /// Redeems `shares` of `delegate`, with `external` units in the pool's
    /// position: burns them from the delegate and the pool's supply, and
    /// returns the external units they are worth. Changes nothing and fails
    /// with `InsufficientBalance` when the delegate holds fewer shares.
    pub fn withdraw(&mut self, delegate: &mut Delegate, shares: u64, external: u64) -> (r: Result<u64, StakeError>)
        ensures
            shares > old(delegate).balance ==> {
                &&& r == Err::<u64, StakeError>(StakeError::InsufficientBalance)
                &&& *final(self) == *old(self)
                &&& *final(delegate) == *old(delegate)
            },
            shares <= old(delegate).balance ==> {
                &&& r == Ok::<u64, StakeError>(value_of(shares, old(self).balance, external))
                &&& final(self).balance == sat_sub(old(self).balance, shares)
                &&& final(delegate).balance == old(delegate).balance - shares
                &&& final(self).authority == old(self).authority
                &&& final(self).bump == old(self).bump
                &&& final(self).is_open == old(self).is_open
                &&& final(delegate).authority == old(delegate).authority
                &&& final(delegate).pool == old(delegate).pool
            },
    {
        if shares > delegate.balance {
            return Err(StakeError::InsufficientBalance);
        }
        let claim = value_of_shares(shares, self.balance, external);
        delegate.balance = delegate.balance - shares;
        self.balance = saturating_sub(self.balance, shares);
        Ok(claim)
    }
}

/// The sum of `balances`.
pub open spec fn total(balances: Seq<u64>) -> int
    decreases balances.len(),
{
    if balances.len() == 0 {
        0
    } else {
        total(balances.drop_last()) + balances.last()
    }
}

/// The sum of what each of `balances` is worth in a pool with `supply` shares
/// and `external` units.
pub open spec fn total_value(balances: Seq<u64>, supply: u64, external: u64) -> int
    decreases balances.len(),
{
    if balances.len() == 0 {
        0
    } else {
        total_value(balances.drop_last(), supply, external) + value_of(
            balances.last(),
            supply,
            external,
        )
    }
}

proof fn lemma_total_value_bounds(balances: Seq<u64>, supply: u64, external: u64)
    requires
        supply > 0,
        total(balances) <= supply,
    ensures
        supply * total_value(balances, supply, external) <= external * total(balances),
        balances.len() > 0 ==> external * total(balances) < supply * (total_value(
            balances,
            supply,
            external,
        ) + balances.len()),
    decreases balances.len(),
{
    if balances.len() > 0 {
        let rest = balances.drop_last();
        let x = balances.last();
        assert(total(rest) >= 0) by {
            lemma_total_nonneg(rest);
        }
        lemma_total_value_bounds(rest, supply, external);
        let s = supply as int;
        let e = external as int;
        let q = (e * x) / s;
        assert(q * s <= e * x && e * x < (q + 1) * s) by (nonlinear_arith)
            requires
                s > 0,
                e >= 0,
                x >= 0,
                q == (e * x) / s,
        ;
        assert(q <= e) by (nonlinear_arith)
            requires
                s > 0,
                e >= 0,
                0 <= x <= s,
                q == (e * x) / s,
        ;
        assert(value_of(x, supply, external) == q);
        let tv = total_value(rest, supply, external);
        let t = total(rest);
        let n = rest.len() as int;
        assert(s * (tv + q) <= e * (t + x)) by (nonlinear_arith)
            requires
                s * tv <= e * t,
                q * s <= e * x,
        ;
        assert(e * (t + x) < s * (tv + q + n + 1)) by (nonlinear_arith)
            requires
                n > 0 ==> e * t < s * (tv + n),
                n == 0 ==> t == 0 && tv == 0,
                e * x < (q + 1) * s,
                s * tv <= e * t,
                n >= 0,
                s > 0,
        ;
    }
}

proof fn lemma_total_nonneg(balances: Seq<u64>)
    ensures
        total(balances) >= 0,
        balances.len() == 0 ==> total(balances) == 0,
    decreases balances.len(),
{
    if balances.len() > 0 {
        lemma_total_nonneg(balances.drop_last());
    }
}

/// Conservation of value: when the depositors' share balances add up to the
/// pool's supply, what their shares are worth adds up to the pool's external
/// balance, short of it by less than one unit per depositor (truncation).
pub proof fn lemma_shares_conserve_value(balances: Seq<u64>, supply: u64, external: u64)
    requires
        supply > 0,
        total(balances) == supply,
    ensures
        total_value(balances, supply, external) <= external,
        external < total_value(balances, supply, external) + balances.len(),
{
    lemma_total_value_bounds(balances, supply, external);
    lemma_total_nonneg(balances);
    let tv = total_value(balances, supply, external);
    let s = supply as int;
    let e = external as int;
    let n = balances.len() as int;
    assert(tv <= e) by (nonlinear_arith)
        requires
            s > 0,
            s * tv <= e * s,
    ;
    if n == 0 {
        assert(total(balances) == 0);
    } else {
        assert(e < tv + n) by (nonlinear_arith)
            requires
                s > 0,
                e * s < s * (tv + n),
        ;
    }
}

/// Bootstrap: the first deposit of `a` into an empty pool mints `a` shares;
/// a second deposit of `a`, once the external balance has doubled to `2a`
/// with no deposit between, mints `floor(a * a / 2a)`: fewer shares for the
/// same deposit.
pub proof fn lemma_bootstrap(a: u64)
    requires
        a > 0,
        2 * a <= u64::MAX,
    ensures
        shares_for(a, 0, 0) == a,
        shares_for(a, a, (2 * a) as u64) == (a * a) / (2 * a as int),
        shares_for(a, a, (2 * a) as u64) == a / 2,
        shares_for(a, a, (2 * a) as u64) < a,
{
    let x = a as int;
    assert((x * x) / (2 * x) == x / 2) by (nonlinear_arith)
        requires
            x > 0,
    ;
    assert((x * x) / (2 * x) <= x) by (nonlinear_arith)
        requires
            x > 0,
    ;
}

/// Withdrawing every outstanding share pays out the whole external balance and
/// leaves no shares outstanding.
pub proof fn lemma_withdraw_all(supply: u64, external: u64)
    requires
        supply > 0,
    ensures
        value_of(supply, supply, external) == external,
        sat_sub(supply, supply) == 0,
{
    let s = supply as int;
    let e = external as int;
    assert((e * s) / s == e) by (nonlinear_arith)
        requires
            s > 0,
    ;
}

proof fn lemma_total_update(balances: Seq<u64>, i: int, v: u64)
    requires
        0 <= i < balances.len(),
    ensures
        total(balances.update(i, v)) == total(balances) - balances[i] + v,
    decreases balances.len(),
{
    let u = balances.update(i, v);
    if i == balances.len() - 1 {
        assert(u.drop_last() =~= balances.drop_last());
    } else {
        assert(u.drop_last() =~= balances.drop_last().update(i, v));
        lemma_total_update(balances.drop_last(), i, v);
    }
}

/// Deposits and withdrawals keep the pool's supply equal to the sum of its
/// delegates' balances: crediting or debiting one delegate's balance by `d`
/// and the supply by the same `d` (no clamping) preserves the sum.
pub proof fn lemma_supply_tracks_delegates(balances: Seq<u64>, i: int, supply: u64, new_balance: u64, new_supply: u64)
    requires
        0 <= i < balances.len(),
        total(balances) == supply,
        new_supply - supply == new_balance - balances[i],
    ensures
        total(balances.update(i, new_balance)) == new_supply,
{
    lemma_total_update(balances, i, new_balance);
}

proof fn lemma_element_le_total(balances: Seq<u64>, i: int)
    requires
        0 <= i < balances.len(),
    ensures
        balances[i] <= total(balances),
{
    lemma_total_update(balances, i, 0);
    lemma_total_nonneg(balances.update(i, 0));
}

/// One deposit keeps the share ledger conserved: when delegate `i` of
/// depositors whose shares add up to the supply deposits `amount`, and nothing
/// clamps, the shares still add up to the new supply, and what they are worth
/// adds up to the new external balance within one unit per depositor.
pub proof fn lemma_deposit_conserves(balances: Seq<u64>, i: int, supply: u64, external: u64, amount: u64)
    requires
        0 <= i < balances.len(),
        total(balances) == supply,
        supply + shares_for(amount, supply, external) <= u64::MAX,
        external + amount <= u64::MAX,
        supply + shares_for(amount, supply, external) > 0,
    ensures
        ({
            let minted = shares_for(amount, supply, external);
            let new_supply = sat_add(supply, minted);
            let after = balances.update(i, sat_add(balances[i], minted));
            &&& new_supply == supply + minted
            &&& after[i] == balances[i] + minted
            &&& total(after) == new_supply
            &&& total_value(after, new_supply, (external + amount) as u64) <= external + amount
            &&& external + amount < total_value(after, new_supply, (external + amount) as u64)
                + after.len()
        }),
{
    let minted = shares_for(amount, supply, external);
    lemma_element_le_total(balances, i);
    let new_balance = sat_add(balances[i], minted);
    assert(new_balance == balances[i] + minted);
    lemma_supply_tracks_delegates(balances, i, supply, new_balance, (supply + minted) as u64);
    let after = balances.update(i, new_balance);
    lemma_shares_conserve_value(after, (supply + minted) as u64, (external + amount) as u64);
}

/// One withdrawal keeps the share ledger conserved: when delegate `i` redeems
/// `shares` it holds, and shares remain outstanding, the remaining shares add
/// up to the new supply, and what they are worth adds up to the external
/// balance left after the payout within one unit per depositor; and what one
/// share is worth does not fall.
pub proof fn lemma_withdraw_conserves(balances: Seq<u64>, i: int, supply: u64, external: u64, shares: u64)
    requires
        0 <= i < balances.len(),
        total(balances) == supply,
        shares <= balances[i],
        shares < supply,
    ensures
        ({
            let paid = value_of(shares, supply, external);
            let new_supply = sat_sub(supply, shares);
            let after = balances.update(i, (balances[i] - shares) as u64);
            &&& paid <= external
            &&& new_supply == supply - shares
            &&& total(after) == new_supply
            &&& total_value(after, new_supply, (external - paid) as u64) <= external - paid
            &&& external - paid < total_value(after, new_supply, (external - paid) as u64)
                + after.len()
            &&& (external - paid) * supply >= external * new_supply
        }),
{
    lemma_element_le_total(balances, i);
    let s = supply as int;
    let e = external as int;
    let x = shares as int;
    assert((e * x) / s <= e) by (nonlinear_arith)
        requires
            s > 0,
            e >= 0,
            0 <= x <= s,
    ;
    let paid = value_of(shares, supply, external);
    let q = (e * x) / s;
    assert(q * s <= e * x) by (nonlinear_arith)
        requires
            s > 0,
            e >= 0,
            x >= 0,
            q == (e * x) / s,
    ;
    assert((e - q) * s >= e * (s - x)) by (nonlinear_arith)
        requires
            q * s <= e * x,
    ;
    lemma_supply_tracks_delegates(balances, i, supply, (balances[i] - shares) as u64, (supply - shares) as u64);
    let after = balances.update(i, (balances[i] - shares) as u64);
    lemma_shares_conserve_value(after, (supply - shares) as u64, (external - paid) as u64);
}

} // verus!
