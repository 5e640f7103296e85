//! The two tables of the ledger that are keyed by accounts.
//!
//! Both keep their entries in a vector in which no key occurs twice, and are
//! searched from the front.

use crate::account::AccountId;
use vstd::prelude::*;

verus! {

/// The number of tokens that each account is recorded to hold.
pub struct BalanceTable {
    entries: Vec<(AccountId, u32)>,
}

/// Whether entry `i` of `entries` belongs to `account`.
pub open spec fn entry_of(entries: Seq<(AccountId, u32)>, i: int, account: AccountId) -> bool {
    0 <= i < entries.len() && entries[i].0 == account
}

impl BalanceTable {
    /// No account has two entries.
    pub closed spec fn wf(&self) -> bool {
        forall|i: int, j: int|
            0 <= i < j < self.entries@.len() ==> (#[trigger] self.entries@[i]).0 != (
            #[trigger] self.entries@[j]).0
    }

    /// The counts by account. An account without an entry is not in the domain.
    pub closed spec fn view(&self) -> Map<AccountId, nat> {
        Map::new(
            |a: AccountId| exists|i: int| entry_of(self.entries@, i, a),
            |a: AccountId| self.entries@[choose|i: int| entry_of(self.entries@, i, a)].1 as nat,
        )
    }

    /// The table without entries.
    pub fn new() -> (t: BalanceTable)
        ensures
            t.wf(),
            t@ == Map::<AccountId, nat>::empty(),
    {
        let t = BalanceTable { entries: Vec::new() };
        assert(t@ =~= Map::<AccountId, nat>::empty());
        t
    }

    fn find(&self, account: &AccountId) -> (r: Option<usize>)
        ensures
            match r {
                Some(i) => entry_of(self.entries@, i as int, *account),
                None => forall|i: int| !entry_of(self.entries@, i, *account),
            },
    {
        let mut i: usize = 0;
        while i < self.entries.len()
            invariant
                i <= self.entries@.len(),
                forall|j: int| 0 <= j < i ==> !entry_of(self.entries@, j, *account),
            decreases self.entries@.len() - i,
        {
            if self.entries[i].0 == *account {
                return Some(i);
            }
            i += 1;
        }
        None
    }

    /// The count recorded for `account`, if it has an entry.
    pub fn get(&self, account: &AccountId) -> (r: Option<u32>)
        requires
            self.wf(),
        ensures
            match r {
                Some(c) => self@.dom().contains(*account) && self@[*account] == c,
                None => !self@.dom().contains(*account),
            },
    {
        match self.find(account) {
            Some(i) => {
                proof {
                    self.lemma_entry_is_value(i as int, *account);
                }
                Some(self.entries[i].1)
            },
            None => None,
        }
    }

    /// With no account entered twice, an account's count is that of its entry.
    proof fn lemma_entry_is_value(&self, i: int, account: AccountId)
        requires
            self.wf(),
            entry_of(self.entries@, i, account),
        ensures
            self@.dom().contains(account),
            self@[account] == self.entries@[i].1 as nat,
    {
        let j = choose|j: int| entry_of(self.entries@, j, account);
        if i < j {
            assert(self.entries@[i].0 != self.entries@[j].0);
        } else if j < i {
            assert(self.entries@[j].0 != self.entries@[i].0);
        }
    }

    /// Every count is that of a 32-bit counter.
    pub proof fn lemma_counts_fit(&self, account: AccountId)
        ensures
            self@.dom().contains(account) ==> self@[account] <= u32::MAX,
    {
    }

    /// Records `count` for `account`, in place of an earlier count if there is one.
    pub fn insert(&mut self, account: AccountId, count: u32)
        requires
            old(self).wf(),
        ensures
            final(self).wf(),
            final(self)@ == old(self)@.insert(account, count as nat),
    {
        let ghost before = self.entries@;
        let found = self.find(&account);
        let ghost at: int = match found {
            Some(i) => i as int,
            None => before.len() as int,
        };
        match found {
            Some(i) => {
                self.entries[i] = (account, count);
            },
            None => {
                self.entries.push((account, count));
            },
        }
        proof {
            let after = self.entries@;
            assert(entry_of(after, at, account));
            assert forall|j: int| 0 <= j < after.len() && j != at implies (#[trigger] after[j]).0
                != account by {
                if found is Some {
                    if j < at {
                        assert(before[j].0 != before[at].0);
                    } else {
                        assert(before[at].0 != before[j].0);
                    }
                } else {
                    assert(!entry_of(before, j, account));
                }
            }
            assert(self.wf()) by {
                assert forall|i: int, j: int| 0 <= i < j < after.len() implies (#[trigger] after[i]).0
                    != (#[trigger] after[j]).0 by {
                    if i != at && j != at {
                        assert(before[i].0 != before[j].0);
                    }
                }
            }
            let goal = old(self)@.insert(account, count as nat);
            assert forall|a: AccountId|
                #![trigger self@.dom().contains(a)]
                #![trigger goal.dom().contains(a)]
                self@.dom().contains(a) == goal.dom().contains(a) && (self@.dom().contains(a)
                    ==> self@[a] == goal[a]) by {
                if self@.dom().contains(a) {
                    let j = choose|j: int| entry_of(after, j, a);
                    if a != account {
                        assert(entry_of(before, j, a));
                    }
                }
                if goal.dom().contains(a) {
                    if a == account {
                        self.lemma_entry_is_value(at, a);
                    } else {
                        let j = choose|j: int| entry_of(before, j, a);
                        old(self).lemma_entry_is_value(j, a);
                        assert(entry_of(after, j, a));
                        self.lemma_entry_is_value(j, a);
                    }
                }
            }
            assert(self@ =~= goal);
        }
    }
}

/// The pairs of an owner and an operator whom the owner lets act on all of the
/// owner's tokens.
pub struct OperatorSet {
    pairs: Vec<(AccountId, AccountId)>,
}

impl OperatorSet {
    /// No pair occurs twice.
    pub closed spec fn wf(&self) -> bool {
        forall|i: int, j: int|
            0 <= i < j < self.pairs@.len() ==> #[trigger] self.pairs@[i] != #[trigger] self.pairs@[j]
    }

    /// The pairs (owner, operator) that are recorded.
    pub closed spec fn view(&self) -> Set<(AccountId, AccountId)> {
        Set::new(|p: (AccountId, AccountId)| self.pairs@.contains(p))
    }

    /// The set without pairs.
    pub fn new() -> (t: OperatorSet)
        ensures
            t.wf(),
            t@ == Set::<(AccountId, AccountId)>::empty(),
    {
        let t = OperatorSet { pairs: Vec::new() };
        assert(t@ =~= Set::<(AccountId, AccountId)>::empty());
        t
    }

    fn find(&self, owner: &AccountId, operator: &AccountId) -> (r: Option<usize>)
        ensures
            match r {
                Some(i) => i < self.pairs@.len() && self.pairs@[i as int] == (*owner, *operator),
                None => !self.pairs@.contains((*owner, *operator)),
            },
    {
        let mut i: usize = 0;
        while i < self.pairs.len()
            invariant
                i <= self.pairs@.len(),
                forall|j: int| 0 <= j < i ==> self.pairs@[j] != (*owner, *operator),
            decreases self.pairs@.len() - i,
        {
            if self.pairs[i].0 == *owner && self.pairs[i].1 == *operator {
                return Some(i);
            }
            i += 1;
        }
        None
    }

    /// Whether `owner` lets `operator` act on all of its tokens.
    pub fn contains(&self, owner: &AccountId, operator: &AccountId) -> (r: bool)
        ensures
            r == self@.contains((*owner, *operator)),
    {
        self.find(owner, operator).is_some()
    }

    /// Records that `owner` lets `operator` act on all of its tokens.
    pub fn insert(&mut self, owner: AccountId, operator: AccountId)
        requires
            old(self).wf(),
        ensures
            final(self).wf(),
            final(self)@ == old(self)@.insert((owner, operator)),
    {
        let ghost before = self.pairs@;
        if self.find(&owner, &operator).is_none() {
            self.pairs.push((owner, operator));
            proof {
                let after = self.pairs@;
                assert(after[before.len() as int] == (owner, operator));
                assert forall|p: (AccountId, AccountId)| before.contains(p) implies after.contains(
                    p,
                ) by {
                    let j = choose|j: int| 0 <= j < before.len() && before[j] == p;
                    assert(after[j] == p);
                }
            }
        }
        assert(self@ =~= old(self)@.insert((owner, operator)));
    }

    /// Records that `owner` no longer lets `operator` act on its tokens.
    pub fn remove(&mut self, owner: AccountId, operator: AccountId)
        requires
            old(self).wf(),
        ensures
            final(self).wf(),
            final(self)@ == old(self)@.remove((owner, operator)),
    {
        let ghost before = self.pairs@;
        match self.find(&owner, &operator) {
            Some(i) => {
                self.pairs.remove(i);
                proof {
                    let after = self.pairs@;
                    assert forall|j: int| 0 <= j < after.len() implies #[trigger] after[j] == before[if j
                        < i {
                        j
                    } else {
                        j + 1
                    }] by {}
                    assert forall|p: (AccountId, AccountId)|
                        before.contains(p) && p != (owner, operator) implies after.contains(p) by {
                        let j = choose|j: int| 0 <= j < before.len() && before[j] == p;
                        if j < i {
                            assert(after[j] == p);
                        } else {
                            assert(after[j - 1] == p);
                        }
                    }
                }
            },
            None => {},
        }
        assert(self@ =~= old(self)@.remove((owner, operator)));
    }
}

} // verus!
