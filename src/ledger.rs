//! The ledger controller: the two mutating operations and the two views,
//! over a balance store and a staker set kept in step.
use vstd::prelude::*;

use crate::account::Account;
use crate::balance_store::{amount_in, BalanceStore};
use crate::model::{
    empty_ledger, ledger_inv, lemma_stake_keeps_inv, lemma_unstake_keeps_inv, staked, unstaked,
    withdrawn, LedgerView,
};
use crate::staker_set::StakerSet;

verus! {

/// Why a stake was rejected. A rejected stake changes nothing.
#[derive(Clone, Copy, Debug, PartialEq, Eq, Structural)]
pub enum StakeError {
    /// The attached payment was zero.
    InvalidAmount,
    /// The new balance would not fit the amount type.
    Overflow,
}

impl StakeError {
    /// A short message for the invoking party.
    pub fn message(&self) -> &'static str {
        match self {
            StakeError::InvalidAmount => "Must pay more than 0",
            StakeError::Overflow => "Staked amount overflows",
        }
    }
}

/// An outbound payment of native currency that the host is to carry out.
#[derive(Clone, Copy, Debug, Eq)]
pub struct Transfer {
    pub to: Account,
    pub amount: u128,
}

impl PartialEq for Transfer {
    fn eq(&self, o: &Transfer) -> (r: bool) {
        self.to == o.to && self.amount == o.amount
    }
}

impl vstd::std_specs::cmp::PartialEqSpecImpl for Transfer {
    open spec fn obeys_eq_spec() -> bool {
        true
    }

    open spec fn eq_spec(&self, o: &Transfer) -> bool {
        self.to == o.to && self.amount == o.amount
    }
}

/// The staking ledger's operations: the two that change it and the two
/// views that read it. A ledger's view is its balances and its stakers.
pub trait StakingContract: Sized + View<V = LedgerView> {
    /// The ledger's internal consistency, which every operation keeps.
    spec fn wf(&self) -> bool;

    /// A ledger with no stakes.
    fn init() -> (r: Self)
        ensures
            r.wf(),
            r@ == empty_ledger(),
    ;

    /// `caller` deposits `payment`. A zero payment is rejected, as is one
    /// that would take the balance past what the amount type holds; a
    /// rejected stake changes nothing.
    fn stake(&mut self, caller: &Account, payment: u128) -> (r: Result<(), StakeError>)
        requires
            old(self).wf(),
        ensures
            final(self).wf(),
            payment == 0 ==> r == Err::<(), StakeError>(StakeError::InvalidAmount),
            payment > 0 && amount_in(old(self)@.0, *caller) + payment > u128::MAX ==> r == Err::<
                (),
                StakeError,
            >(StakeError::Overflow),
            r is Ok <==> payment > 0 && amount_in(old(self)@.0, *caller) + payment <= u128::MAX,
            r is Ok ==> final(self)@ == staked(old(self)@, *caller, payment as nat),
            r is Err ==> final(self)@ == old(self)@,
    ;

    /// `caller` withdraws its whole balance. Where it holds nothing, nothing
    /// changes and nothing is paid out; otherwise its balance and its
    /// membership are removed and the returned transfer pays it the balance.
    fn unstake(&mut self, caller: &Account) -> (r: Option<Transfer>)
        requires
            old(self).wf(),
        ensures
            final(self).wf(),
            final(self)@ == unstaked(old(self)@, *caller),
            withdrawn(old(self)@, *caller) == 0 ==> r is None,
            withdrawn(old(self)@, *caller) > 0 ==> (r matches Some(t) && t.to == *caller
                && t.amount == withdrawn(old(self)@, *caller)),
    ;

    /// A snapshot of the stakers, each listed once, in no promised order.
    fn staked_addresses(&self) -> (r: Vec<Account>)
        requires
            self.wf(),
        ensures
            r@.no_duplicates(),
            r@.to_set() == self@.1,
    ;

    /// The balance of `addr`, zero if it holds none.
    fn staking_position(&self, addr: &Account) -> (r: u128)
        requires
            self.wf(),
        ensures
            r == amount_in(self@.0, *addr),
    ;
}

/// The staking ledger kept in memory: a balance store and a staker set held
/// in step.
pub struct Ledger {
    positions: BalanceStore,
    stakers: StakerSet,
}

impl View for Ledger {
    type V = LedgerView;

    /// The balances and the stakers.
    closed spec fn view(&self) -> LedgerView {
        (self.positions@, self.stakers@)
    }
}

impl StakingContract for Ledger {
    /// Both stores are well formed and the ledger invariant holds.
    closed spec fn wf(&self) -> bool {
        &&& self.positions.wf()
        &&& self.stakers.wf()
        &&& ledger_inv(self@)
    }

    fn init() -> (r: Ledger) {
        Ledger { positions: BalanceStore::new(), stakers: StakerSet::new() }
    }

    fn stake(&mut self, caller: &Account, payment: u128) -> (r: Result<(), StakeError>) {
        if payment == 0 {
            return Err(StakeError::InvalidAmount);
        }
        let current = self.positions.get(caller);
        if payment > u128::MAX - current {
            return Err(StakeError::Overflow);
        }
        proof {
            lemma_stake_keeps_inv(self@, *caller, payment as nat);
        }
        self.positions.add(caller, payment);
        self.stakers.insert(caller);
        Ok(())
    }

    fn unstake(&mut self, caller: &Account) -> (r: Option<Transfer>) {
        let amount = self.positions.get(caller);
        if amount == 0 {
            return None;
        }
        proof {
            lemma_unstake_keeps_inv(self@, *caller);
        }
        self.stakers.remove(caller);
        self.positions.clear(caller);
        Some(Transfer { to: *caller, amount })
    }

    fn staked_addresses(&self) -> (r: Vec<Account>) {
        self.stakers.enumerate()
    }

    fn staking_position(&self, addr: &Account) -> (r: u128) {
        self.positions.get(addr)
    }
}

impl Ledger {
    /// In every well-formed ledger an account is a staker exactly when its
    /// balance is positive.
    pub proof fn lemma_staker_iff_positive(&self, a: Account)
        requires
            self.wf(),
        ensures
            self@.1.contains(a) <==> amount_in(self@.0, a) > 0,
    {
    }
}

} // verus!
