//! A keyed store whose keys are account identifiers.

use vstd::prelude::*;
use crate::account::AccountId;

verus! {

/// A mapping from account identifiers to values, with insertion and lookup.
/// It gives no order in which its entries could be walked.
pub struct AccountMap<V> {
    entries: Vec<(AccountId, V)>,
}

impl<V> View for AccountMap<V> {
    type V = Map<AccountId, V>;

    closed spec fn view(&self) -> Map<AccountId, V> {
        Map::new(
            |k: AccountId| self.slot_of(k) is Some,
            |k: AccountId| self.entries@[self.slot_of(k).unwrap()].1,
        )
    }
}

impl<V> AccountMap<V> {
    /// Whether `i` is a position at which `key` is stored.
    spec fn holds_at(&self, key: AccountId, i: int) -> bool {
        0 <= i < self.entries@.len() && self.entries@[i].0 == key
    }

    /// A position at which `key` is stored, if there is one.
    spec fn slot_of(&self, key: AccountId) -> Option<int> {
        if exists|i: int| self.holds_at(key, i) {
            Some(choose|i: int| self.holds_at(key, i))
        } else {
            None
        }
    }

    /// No key is stored at two positions.
    pub closed spec fn wf(&self) -> bool {
        forall|i: int, j: int|
            0 <= i < j < self.entries@.len() ==> self.entries@[i].0 != self.entries@[j].0
    }

    /// In a well-formed map, the position of a key is the one position that
    /// holds it.
    proof fn lemma_slot(&self, key: AccountId, i: int)
        requires
            self.wf(),
            self.holds_at(key, i),
        ensures
            self.slot_of(key) == Some(i),
            self@.contains_key(key),
            self@[key] == self.entries@[i].1,
    {
        let j = choose|j: int| self.holds_at(key, j);
        assert(self.holds_at(key, j));
        if i < j {
            assert(self.entries@[i].0 != self.entries@[j].0);
        } else if j < i {
            assert(self.entries@[j].0 != self.entries@[i].0);
        }
    }

    /// A map that holds nothing.
    pub fn new() -> (m: AccountMap<V>)
        ensures
            m.wf(),
            m@ == Map::<AccountId, V>::empty(),
    {
        let m = AccountMap { entries: Vec::new() };
        assert(m@ =~= Map::<AccountId, V>::empty());
        m
    }

    /// The position at which `key` is stored, if it is stored.
    fn position(&self, key: &AccountId) -> (r: Option<usize>)
        requires
            self.wf(),
        ensures
            match r {
                Some(i) => self.holds_at(*key, i as int),
                None => !self@.contains_key(*key),
            },
    {
        let mut i: usize = 0;
        while i < self.entries.len()
            invariant
                i <= self.entries@.len(),
                forall|j: int| 0 <= j < i ==> self.entries@[j].0 != *key,
            decreases self.entries@.len() - i,
        {
            if self.entries[i].0 == *key {
                return Some(i);
            }
            i += 1;
        }
        assert(forall|j: int| !self.holds_at(*key, j));
        None
    }

    /// Whether a value is stored under `key`.
    pub fn contains_key(&self, key: &AccountId) -> (b: bool)
        requires
            self.wf(),
        ensures
            b == self@.contains_key(*key),
    {
        match self.position(key) {
            Some(i) => {
                proof {
                    self.lemma_slot(*key, i as int);
                }
                true
            },
            None => false,
        }
    }

    /// The value stored under `key`, if there is one.
    pub fn get(&self, key: &AccountId) -> (r: Option<&V>)
        requires
            self.wf(),
        ensures
            match r {
                Some(v) => self@.contains_key(*key) && *v == self@[*key],
                None => !self@.contains_key(*key),
            },
    {
        match self.position(key) {
            Some(i) => {
                proof {
                    self.lemma_slot(*key, i as int);
                }
                Some(&self.entries[i].1)
            },
            None => None,
        }
    }

    /// What storing `value` at position `slot` of `before` gives.
    proof fn lemma_stored(
        before: AccountMap<V>,
        after: AccountMap<V>,
        key: AccountId,
        value: V,
        slot: int,
    )
        requires
            before.wf(),
            after.wf(),
            after.holds_at(key, slot),
            after.entries@[slot].1 == value,
            slot < before.entries@.len() ==> before.entries@[slot].0 == key,
            forall|j: int| before.holds_at(key, j) ==> j == slot,
            forall|j: int|
                0 <= j < before.entries@.len() && j != slot ==> j < after.entries@.len()
                    && after.entries@[j] == before.entries@[j],
            after.entries@.len() == before.entries@.len() || (after.entries@.len()
                == before.entries@.len() + 1 && slot == before.entries@.len()),
        ensures
            after@ == before@.insert(key, value),
    {
        let target = before@.insert(key, value);
        assert forall|k: AccountId| #[trigger] after@.contains_key(k) == target.contains_key(
            k,
        ) by {
            if k == key {
                after.lemma_slot(k, slot);
            } else if before@.contains_key(k) {
                let j = before.slot_of(k).unwrap();
                assert(before.holds_at(k, j));
                assert(after.holds_at(k, j));
                after.lemma_slot(k, j);
            } else if after@.contains_key(k) {
                let j = after.slot_of(k).unwrap();
                assert(after.holds_at(k, j));
                assert(before.holds_at(k, j));
                before.lemma_slot(k, j);
            }
        }
        assert forall|k: AccountId| #[trigger] after@.contains_key(k) implies after@[k]
            == target[k] by {
            if k == key {
                after.lemma_slot(k, slot);
            } else {
                let j = after.slot_of(k).unwrap();
                assert(after.holds_at(k, j));
                assert(before.holds_at(k, j));
                before.lemma_slot(k, j);
                after.lemma_slot(k, j);
            }
        }
        assert(after@ =~= target);
    }

    /// Stores `value` under `key`, in place of what was stored there before.
    /// Every other key keeps its value.
    pub fn insert(&mut self, key: AccountId, value: V)
        requires
            old(self).wf(),
        ensures
            final(self).wf(),
            final(self)@ == old(self)@.insert(key, value),
    {
        let ghost before = *self;
        match self.position(&key) {
            Some(i) => {
                self.entries[i] = (key, value);
                proof {
                    before.lemma_slot(key, i as int);
                    assert forall|j: int| before.holds_at(key, j) implies j == i by {
                        before.lemma_slot(key, j);
                    }
                    Self::lemma_stored(before, *self, key, value, i as int);
                }
            },
            None => {
                self.entries.push((key, value));
                proof {
                    let n = before.entries@.len() as int;
                    assert forall|j: int| !before.holds_at(key, j) by {
                        if before.holds_at(key, j) {
                            before.lemma_slot(key, j);
                        }
                    }
                    assert forall|i: int, j: int|
                        0 <= i < j < self.entries@.len() implies self.entries@[i].0
                        != self.entries@[j].0 by {
                        if j == n {
                            assert(!before.holds_at(key, i));
                        }
                    }
                    Self::lemma_stored(before, *self, key, value, n);
                }
            },
        }
    }
}

} // verus!
