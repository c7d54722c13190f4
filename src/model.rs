//! The ledger as mathematics: balances as a map, stakers as a set, and the
//! two transitions over them, with the laws that relate them.
use vstd::prelude::*;

use crate::account::Account;
use crate::balance_store::amount_in;

verus! {

/// A ledger state: the balance of each account that holds one, and the set
/// of stakers.
pub type LedgerView = (Map<Account, nat>, Set<Account>);

/// The ledger's central invariant: no stored balance is zero, and an account
/// is a staker exactly when it holds a balance.
pub open spec fn ledger_inv(v: LedgerView) -> bool {
    &&& forall|a: Account| #[trigger] v.0.contains_key(a) ==> v.0[a] > 0
    &&& forall|a: Account| #[trigger] v.1.contains(a) <==> v.0.contains_key(a)
}

/// The ledger with no balances and no stakers.
pub open spec fn empty_ledger() -> LedgerView {
    (Map::empty(), Set::empty())
}

/// The state after `a` stakes `payment` on `v`.
pub open spec fn staked(v: LedgerView, a: Account, payment: nat) -> LedgerView {
    (v.0.insert(a, amount_in(v.0, a) + payment), v.1.insert(a))
}

/// What `a` withdraws when it unstakes on `v`: its whole balance.
pub open spec fn withdrawn(v: LedgerView, a: Account) -> nat {
    amount_in(v.0, a)
}

/// The state after `a` unstakes on `v`: unchanged where it holds nothing,
/// otherwise its balance and its membership are gone.
pub open spec fn unstaked(v: LedgerView, a: Account) -> LedgerView {
    if amount_in(v.0, a) == 0 {
        v
    } else {
        (v.0.remove(a), v.1.remove(a))
    }
}

/// The state after `a` stakes each of `payments` in turn on `v`.
pub open spec fn staked_all(v: LedgerView, a: Account, payments: Seq<nat>) -> LedgerView
    decreases payments.len(),
{
    if payments.len() == 0 {
        v
    } else {
        staked(staked_all(v, a, payments.drop_last()), a, payments.last())
    }
}

/// The sum of `s`.
pub open spec fn total(s: Seq<nat>) -> nat
    decreases s.len(),
{
    if s.len() == 0 {
        0
    } else {
        total(s.drop_last()) + s.last()
    }
}

/// The empty ledger meets the invariant.
pub proof fn lemma_empty_ledger_inv()
    ensures
        ledger_inv(empty_ledger()),
{
}

/// A stake of a positive amount keeps the invariant.
pub proof fn lemma_stake_keeps_inv(v: LedgerView, a: Account, payment: nat)
    requires
        ledger_inv(v),
        payment > 0,
    ensures
        ledger_inv(staked(v, a, payment)),
{
}

/// An unstake keeps the invariant.
pub proof fn lemma_unstake_keeps_inv(v: LedgerView, a: Account)
    requires
        ledger_inv(v),
    ensures
        ledger_inv(unstaked(v, a)),
{
}

/// Staking `x` and then `y` from one account raises its balance by `x + y`;
/// from a zero balance it ends at `x + y`.
pub proof fn lemma_stake_additive(v: LedgerView, a: Account, x: nat, y: nat)
    requires
        x > 0,
        y > 0,
    ensures
        amount_in(staked(staked(v, a, x), a, y).0, a) == amount_in(v.0, a) + x + y,
{
}

/// After positive stakes summing to `total(payments)` from an account that
/// held nothing, the account holds exactly that sum, so an unstake withdraws
/// exactly it and leaves the account with no balance and out of the stakers.
pub proof fn lemma_full_withdrawal(v: LedgerView, a: Account, payments: Seq<nat>)
    requires
        amount_in(v.0, a) == 0,
        forall|i: int| 0 <= i < payments.len() ==> payments[i] > 0,
        total(payments) > 0,
    ensures
        withdrawn(staked_all(v, a, payments), a) == total(payments),
        amount_in(unstaked(staked_all(v, a, payments), a).0, a) == 0,
        !unstaked(staked_all(v, a, payments), a).1.contains(a),
{
    lemma_staked_all_amount(v, a, payments);
}

/// Stakes add up: the balance after `staked_all` is the balance before plus
/// the sum of the payments.
pub proof fn lemma_staked_all_amount(v: LedgerView, a: Account, payments: Seq<nat>)
    ensures
        amount_in(staked_all(v, a, payments).0, a) == amount_in(v.0, a) + total(payments),
    decreases payments.len(),
{
    if payments.len() > 0 {
        lemma_staked_all_amount(v, a, payments.drop_last());
    }
}

/// An unstake by an account that holds nothing changes nothing and
/// withdraws nothing.
pub proof fn lemma_unstake_empty_is_noop(v: LedgerView, a: Account)
    requires
        amount_in(v.0, a) == 0,
    ensures
        unstaked(v, a) == v,
        withdrawn(v, a) == 0,
{
}

} // verus!
