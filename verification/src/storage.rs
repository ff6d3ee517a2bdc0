use vstd::prelude::*;

use crate::account::StorageKey;

verus! {

/// A key-value store: the state the contracts keep per key.
///
/// Entries are kept in a vector in which no key occurs twice; its view is
/// the map from each stored key to its value.
pub struct StorageMap<K, V> {
    entries: Vec<(K, V)>,
}

impl<K, V> StorageMap<K, V> {
    #[verifier::type_invariant]
    spec fn keys_unique(self) -> bool {
        forall|i: int, j: int|
            0 <= i < j < self.entries@.len() ==> #[trigger] self.entries@[i].0
                != #[trigger] self.entries@[j].0
    }

    spec fn holds_at(self, k: K, i: int) -> bool {
        0 <= i < self.entries@.len() && self.entries@[i].0 == k
    }

    pub closed spec fn stored(self, k: K) -> bool {
        exists|i: int| self.holds_at(k, i)
    }

    pub closed spec fn value_of(self, k: K) -> V {
        self.entries@[choose|i: int| self.holds_at(k, i)].1
    }

    /// The number of stored keys.
    pub closed spec fn size(self) -> nat {
        self.entries@.len()
    }
}

impl<K, V> View for StorageMap<K, V> {
    type V = Map<K, V>;

    closed spec fn view(&self) -> Map<K, V> {
        Map::new(|k: K| self.stored(k), |k: K| self.value_of(k))
    }
}

impl<K: StorageKey, V> StorageMap<K, V> {
    /// An empty store.
    pub fn new() -> (r: Self)
        ensures
            r@ == Map::<K, V>::empty(),
    {
        let r = StorageMap { entries: Vec::new() };
        assert(r@ =~= Map::<K, V>::empty());
        r
    }

    proof fn lemma_at(&self, k: K, i: int)
        requires
            self.keys_unique(),
            self.holds_at(k, i),
        ensures
            self@.dom().contains(k),
            self@[k] == self.entries@[i].1,
    {
        let j = choose|j: int| self.holds_at(k, j);
        assert(self.holds_at(k, j));
        if j != i {
            if j < i {
                assert(self.entries@[j].0 != self.entries@[i].0);
            } else {
                assert(self.entries@[i].0 != self.entries@[j].0);
            }
        }
    }

    /// The position of `k` among the entries, if it is stored.
    fn position(&self, k: &K) -> (r: Option<usize>)
        ensures
            self.keys_unique(),
            r matches Some(i) ==> self.holds_at(*k, i as int),
            r is None ==> !self@.dom().contains(*k),
    {
        proof {
            use_type_invariant(self);
        }
        let mut i: usize = 0;
        while i < self.entries.len()
            invariant
                self.keys_unique(),
                i <= self.entries@.len(),
                forall|j: int| 0 <= j < i ==> self.entries@[j].0 != *k,
            decreases self.entries@.len() - i,
        {
            if self.entries[i].0.same_key(k) {
                return Some(i);
            }
            i = i + 1;
        }
        assert(!self.stored(*k));
        None
    }

    /// Whether `k` is stored.
    pub fn contains(&self, k: &K) -> (r: bool)
        ensures
            r == self@.dom().contains(*k),
    {
        match self.position(k) {
            Some(i) => {
                proof {
                    self.lemma_at(*k, i as int);
                }
                true
            },
            None => false,
        }
    }

    /// The value stored under `k`, if any.
    pub fn get(&self, k: &K) -> (r: Option<&V>)
        ensures
            r is Some == self@.dom().contains(*k),
            r matches Some(v) ==> *v == self@[*k],
    {
        match self.position(k) {
            Some(i) => {
                proof {
                    self.lemma_at(*k, i as int);
                }
                Some(&self.entries[i].1)
            },
            None => None,
        }
    }

    /// Stores `v` under `k`, replacing what was stored there.
    pub fn insert(&mut self, k: K, v: V)
        ensures
            final(self)@ == old(self)@.insert(k, v),
    {
        proof {
            use_type_invariant(&*self);
        }
        let ghost before = self.entries@;
        match self.position(&k) {
            Some(i) => {
                let mut entries = Vec::new();
                std::mem::swap(&mut entries, &mut self.entries);
                entries.set(i, (k, v));
                proof {
                    assert forall|a: int, b: int|
                        0 <= a < b < entries@.len() implies #[trigger] entries@[a].0
                        != #[trigger] entries@[b].0 by {
                        if a != i && b != i {
                            assert(before[a].0 != before[b].0);
                        } else if a == i {
                            assert(before[a].0 != before[b].0);
                        } else {
                            assert(before[a].0 != before[b].0);
                        }
                    }
                }
                self.entries = entries;
                proof {
                    assert forall|key: K| #[trigger] self.stored(key) == (key == k || old(
                        self,
                    ).stored(key)) by {
                        if key == k {
                            assert(self.holds_at(key, i as int));
                        } else if old(self).stored(key) {
                            let j = choose|j: int| old(self).holds_at(key, j);
                            assert(self.holds_at(key, j));
                        } else if self.stored(key) {
                            let j = choose|j: int| self.holds_at(key, j);
                            assert(old(self).holds_at(key, j));
                        }
                    }
                    assert forall|key: K| self.stored(key) implies #[trigger] self.value_of(
                        key,
                    ) == (if key == k {
                        v
                    } else {
                        old(self).value_of(key)
                    }) by {
                        if key == k {
                            self.lemma_at(key, i as int);
                        } else {
                            let j = choose|j: int| self.holds_at(key, j);
                            self.lemma_at(key, j);
                            old(self).lemma_at(key, j);
                        }
                    }
                    assert(self@ =~= old(self)@.insert(k, v));
                }
            },
            None => {
                let mut entries = Vec::new();
                std::mem::swap(&mut entries, &mut self.entries);
                entries.push((k, v));
                proof {
                    assert forall|a: int, b: int|
                        0 <= a < b < entries@.len() implies #[trigger] entries@[a].0
                        != #[trigger] entries@[b].0 by {
                        if b == before.len() {
                            assert(old(self).holds_at(before[a].0, a));
                        } else {
                            assert(before[a].0 != before[b].0);
                        }
                    }
                }
                self.entries = entries;
                proof {
                    let n = before.len() as int;
                    assert(self.holds_at(k, n));
                    assert forall|key: K| #[trigger] self.stored(key) == (key == k || old(
                        self,
                    ).stored(key)) by {
                        if key == k {
                            assert(self.holds_at(key, n));
                        } else if old(self).stored(key) {
                            let j = choose|j: int| old(self).holds_at(key, j);
                            assert(self.holds_at(key, j));
                        } else if self.stored(key) {
                            let j = choose|j: int| self.holds_at(key, j);
                            assert(old(self).holds_at(key, j));
                        }
                    }
                    assert forall|key: K| self.stored(key) implies #[trigger] self.value_of(
                        key,
                    ) == (if key == k {
                        v
                    } else {
                        old(self).value_of(key)
                    }) by {
                        if key == k {
                            self.lemma_at(key, n);
                        } else {
                            let j = choose|j: int| self.holds_at(key, j);
                            self.lemma_at(key, j);
                            old(self).lemma_at(key, j);
                        }
                    }
                    assert(self@ =~= old(self)@.insert(k, v));
                }
            },
        }
    }

    /// Removes what is stored under `k`, if anything.
    pub fn remove(&mut self, k: &K)
        ensures
            final(self)@ == old(self)@.remove(*k),
    {
        proof {
            use_type_invariant(&*self);
        }
        match self.position(k) {
            Some(i) => {
                let ghost before = self.entries@;
                let mut entries = Vec::new();
                std::mem::swap(&mut entries, &mut self.entries);
                let _ = entries.remove(i);
                proof {
                    assert forall|j: int| 0 <= j < entries@.len() implies #[trigger] entries@[j]
                        == before[if j < i { j } else { j + 1 }] by {}
                    assert forall|a: int, b: int|
                        0 <= a < b < entries@.len() implies #[trigger] entries@[a].0
                        != #[trigger] entries@[b].0 by {
                        let oa = if a < i { a } else { a + 1 };
                        let ob = if b < i { b } else { b + 1 };
                        assert(entries@[a] == before[oa]);
                        assert(entries@[b] == before[ob]);
                        assert(before[oa].0 != before[ob].0);
                    }
                }
                self.entries = entries;
                proof {
                    assert forall|j: int| 0 <= j < self.entries@.len() implies #[trigger] self.entries@[j]
                        == before[if j < i { j } else { j + 1 }] by {}
                    assert forall|key: K| #[trigger] self.stored(key) == (key != *k && old(
                        self,
                    ).stored(key)) by {
                        if self.stored(key) {
                            let j = choose|j: int| self.holds_at(key, j);
                            let oj = if j < i { j } else { j + 1 };
                            assert(old(self).holds_at(key, oj));
                            if key == *k {
                                old(self).lemma_at(key, oj);
                                old(self).lemma_at(key, i as int);
                                if oj < i {
                                    assert(before[oj].0 != before[i as int].0);
                                } else {
                                    assert(before[i as int].0 != before[oj].0);
                                }
                            }
                        } else if key != *k && old(self).stored(key) {
                            let oj = choose|j: int| old(self).holds_at(key, j);
                            assert(oj != i);
                            let j = if oj < i { oj } else { oj - 1 };
                            assert(self.holds_at(key, j));
                        }
                    }
                    assert forall|key: K| self.stored(key) implies #[trigger] self.value_of(key)
                        == old(self).value_of(key) by {
                        let j = choose|j: int| self.holds_at(key, j);
                        let oj = if j < i { j } else { j + 1 };
                        self.lemma_at(key, j);
                        old(self).lemma_at(key, oj);
                    }
                    assert(self@ =~= old(self)@.remove(*k));
                }
            },
            None => {
                assert(self@ =~= old(self)@.remove(*k));
            },
        }
    }
}

} // verus!
