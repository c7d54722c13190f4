use vstd::prelude::*;

use crate::account::Account;

verus! {

/// The amount that `m` records for `a`, zero where it has no entry.
pub open spec fn amount_in(m: Map<Account, nat>, a: Account) -> nat {
    if m.contains_key(a) {
        m[a]
    } else {
        0
    }
}

/// One staked amount per account; an account without an entry holds zero.
///
/// Entries are kept in a vector with distinct accounts and nonzero amounts:
/// the store never holds an explicit zero.
pub struct BalanceStore {
    entries: Vec<(Account, u128)>,
    model: Ghost<Map<Account, nat>>,
}

impl View for BalanceStore {
    type V = Map<Account, nat>;

    /// The stored entries, as a map from account to amount.
    closed spec fn view(&self) -> Map<Account, nat> {
        self.model@
    }
}

impl BalanceStore {
    /// The store's internal consistency: entries match the map one for one,
    /// accounts are distinct and no amount is zero.
    pub closed spec fn wf(&self) -> bool {
        &&& forall|i: int, j: int|
            0 <= i < j < self.entries@.len() ==> #[trigger] self.entries@[i].0
                != #[trigger] self.entries@[j].0
        &&& forall|i: int|
            0 <= i < self.entries@.len() ==> {
                &&& self.model@.contains_key(#[trigger] self.entries@[i].0)
                &&& self.model@[self.entries@[i].0] == self.entries@[i].1 as nat
            }
        &&& forall|a: Account|
            #[trigger] self.model@.contains_key(a) ==> exists|i: int|
                0 <= i < self.entries@.len() && #[trigger] self.entries@[i].0 == a
        &&& forall|a: Account| #[trigger] self.model@.contains_key(a) ==> self.model@[a] > 0
    }

    /// The amount held by `a`: the stored one, or zero where there is none.
    pub open spec fn amount_of(&self, a: Account) -> nat {
        amount_in(self@, a)
    }

    /// An empty store.
    pub fn new() -> (r: BalanceStore)
        ensures
            r.wf(),
            r@ == Map::<Account, nat>::empty(),
    {
        BalanceStore { entries: Vec::new(), model: Ghost(Map::empty()) }
    }

    /// Index of the entry of `a`, if there is one.
    fn find(&self, a: &Account) -> (r: Option<usize>)
        requires
            self.wf(),
        ensures
            match r {
                Some(i) => i < self.entries@.len() && self.entries@[i as int].0 == *a,
                None => !self@.contains_key(*a),
            },
    {
        let mut i: usize = 0;
        while i < self.entries.len()
            invariant
                self.wf(),
                i <= self.entries@.len(),
                forall|j: int| 0 <= j < i ==> self.entries@[j].0 != *a,
            decreases self.entries@.len() - i,
        {
            if self.entries[i].0 == *a {
                return Some(i);
            }
            i = i + 1;
        }
        None
    }

    /// The amount held by `a`, zero if it has no entry.
    pub fn get(&self, a: &Account) -> (r: u128)
        requires
            self.wf(),
        ensures
            r as nat == self.amount_of(*a),
    {
        match self.find(a) {
            Some(i) => self.entries[i].1,
            None => 0,
        }
    }

    /// Raises the amount of `a` by `amount`, creating its entry where there
    /// was none. Adding zero changes nothing.
    pub fn add(&mut self, a: &Account, amount: u128)
        requires
            old(self).wf(),
            old(self).amount_of(*a) + amount <= u128::MAX,
        ensures
            final(self).wf(),
            final(self)@ == if amount == 0 {
                old(self)@
            } else {
                old(self)@.insert(*a, (old(self).amount_of(*a) + amount) as nat)
            },
    {
        if amount == 0 {
            return;
        }
        match self.find(a) {
            Some(i) => {
                let current = self.entries[i].1;
                let ghost old_entries = self.entries@;
                self.entries.set(i, (*a, current + amount));
                self.model = Ghost(self.model@.insert(*a, (current + amount) as nat));
                assert forall|b: Account| #[trigger] self.model@.contains_key(b) implies exists|
                    j: int,
                | 0 <= j < self.entries@.len() && #[trigger] self.entries@[j].0 == b by {
                    if b != *a {
                        let j = choose|j: int|
                            0 <= j < old_entries.len() && #[trigger] old_entries[j].0 == b;
                        assert(self.entries@[j].0 == b);
                    } else {
                        assert(self.entries@[i as int].0 == b);
                    }
                }
            },
            None => {
                let ghost old_entries = self.entries@;
                self.entries.push((*a, amount));
                self.model = Ghost(self.model@.insert(*a, amount as nat));
                assert forall|b: Account| #[trigger] self.model@.contains_key(b) implies exists|
                    j: int,
                | 0 <= j < self.entries@.len() && #[trigger] self.entries@[j].0 == b by {
                    if b != *a {
                        let j = choose|j: int|
                            0 <= j < old_entries.len() && #[trigger] old_entries[j].0 == b;
                        assert(self.entries@[j].0 == b);
                    } else {
                        assert(self.entries@[old_entries.len() as int].0 == b);
                    }
                }
            },
        }
    }

    /// Removes the entry of `a`, whatever it held; nothing happens where
    /// there is none.
    pub fn clear(&mut self, a: &Account)
        requires
            old(self).wf(),
        ensures
            final(self).wf(),
            final(self)@ == old(self)@.remove(*a),
    {
        match self.find(a) {
            Some(i) => {
                let ghost old_entries = self.entries@;
                let ghost last = old_entries.len() - 1;
                self.entries.swap_remove(i);
                self.model = Ghost(self.model@.remove(*a));
                assert forall|j: int| 0 <= j < self.entries@.len() implies #[trigger] self.entries@[j]
                    == if j == i {
                    old_entries[last]
                } else {
                    old_entries[j]
                } by {}
                assert forall|b: Account| #[trigger] self.model@.contains_key(b) implies exists|
                    j: int,
                | 0 <= j < self.entries@.len() && #[trigger] self.entries@[j].0 == b by {
                    let j = choose|j: int|
                        0 <= j < old_entries.len() && #[trigger] old_entries[j].0 == b;
                    if j == last {
                        assert(self.entries@[i as int].0 == b);
                    } else {
                        assert(self.entries@[j].0 == b);
                    }
                }
            },
            None => {
                assert(self.model@.remove(*a) =~= self.model@);
            },
        }
    }
}

} // verus!
