use vstd::prelude::*;

use crate::account::Account;

verus! {

/// The accounts that currently hold a stake, each listed once.
pub struct StakerSet {
    members: Vec<Account>,
}

impl View for StakerSet {
    type V = Set<Account>;

    /// The members, as a set.
    closed spec fn view(&self) -> Set<Account> {
        self.members@.to_set()
    }
}

impl StakerSet {
    /// No account is listed twice.
    pub closed spec fn wf(&self) -> bool {
        self.members@.no_duplicates()
    }

    /// An empty set.
    pub fn new() -> (r: StakerSet)
        ensures
            r.wf(),
            r@ == Set::<Account>::empty(),
    {
        let r = StakerSet { members: Vec::new() };
        assert(r@ =~= Set::<Account>::empty());
        r
    }

    /// Index of `a` among the members, if it is one.
    fn find(&self, a: &Account) -> (r: Option<usize>)
        ensures
            match r {
                Some(i) => i < self.members@.len() && self.members@[i as int] == *a,
                None => !self@.contains(*a),
            },
    {
        let mut i: usize = 0;
        while i < self.members.len()
            invariant
                i <= self.members@.len(),
                forall|j: int| 0 <= j < i ==> self.members@[j] != *a,
            decreases self.members@.len() - i,
        {
            if self.members[i] == *a {
                return Some(i);
            }
            i = i + 1;
        }
        None
    }

    /// Whether `a` is a member.
    pub fn contains(&self, a: &Account) -> (r: bool)
        ensures
            r == self@.contains(*a),
    {
        match self.find(a) {
            Some(i) => {
                assert(self.members@.contains(*a));
                true
            },
            None => false,
        }
    }

    /// Adds `a`; nothing changes where it is already a member.
    pub fn insert(&mut self, a: &Account)
        requires
            old(self).wf(),
        ensures
            final(self).wf(),
            final(self)@ == old(self)@.insert(*a),
    {
        match self.find(a) {
            Some(i) => {
                assert(self.members@.contains(*a));
                assert(self@.insert(*a) =~= self@);
            },
            None => {
                let ghost old_members = self.members@;
                self.members.push(*a);
                assert forall|x: Account| #[trigger] self@.contains(x) == old_members.to_set().insert(
                    *a,
                ).contains(x) by {
                    if old_members.contains(x) {
                        let j = choose|j: int| 0 <= j < old_members.len() && old_members[j] == x;
                        assert(self.members@[j] == x);
                    }
                    if x == *a {
                        assert(self.members@[old_members.len() as int] == x);
                    }
                }
                assert(self@ =~= old_members.to_set().insert(*a));
            },
        }
    }

    /// Removes `a`; nothing changes where it is not a member. The order in
    /// which the others are listed may change.
    pub fn remove(&mut self, a: &Account)
        requires
            old(self).wf(),
        ensures
            final(self).wf(),
            final(self)@ == old(self)@.remove(*a),
    {
        match self.find(a) {
            Some(i) => {
                let ghost old_members = self.members@;
                let ghost last = old_members.len() - 1;
                self.members.swap_remove(i);
                assert forall|j: int| 0 <= j < self.members@.len() implies #[trigger] self.members@[j]
                    == if j == i {
                    old_members[last]
                } else {
                    old_members[j]
                } by {}
                assert forall|x: Account| #[trigger] self@.contains(x) == old_members.to_set().remove(
                    *a,
                ).contains(x) by {
                    if old_members.contains(x) && x != *a {
                        let j = choose|j: int| 0 <= j < old_members.len() && old_members[j] == x;
                        if j == last {
                            assert(self.members@[i as int] == x);
                        } else {
                            assert(self.members@[j] == x);
                        }
                    }
                    if self.members@.contains(x) {
                        let j = choose|j: int|
                            0 <= j < self.members@.len() && self.members@[j] == x;
                        if j == i {
                            assert(old_members[last] == x);
                        } else {
                            assert(old_members[j] == x);
                        }
                    }
                }
                assert(self@ =~= old_members.to_set().remove(*a));
            },
            None => {
                assert(self@.remove(*a) =~= self@);
            },
        }
    }

    /// A snapshot of the members, each listed once, in no promised order.
    pub fn enumerate(&self) -> (r: Vec<Account>)
        requires
            self.wf(),
        ensures
            r@.no_duplicates(),
            r@.to_set() == self@,
    {
        let mut r: Vec<Account> = Vec::new();
        let mut i: usize = 0;
        while i < self.members.len()
            invariant
                i <= self.members@.len(),
                r@ == self.members@.subrange(0, i as int),
            decreases self.members@.len() - i,
        {
            r.push(self.members[i]);
            i = i + 1;
        }
        assert(r@ =~= self.members@);
        r
    }
}

} // verus!
