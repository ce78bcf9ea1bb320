//! A dictionary of contract storage: items under distinct keys.
use vstd::prelude::*;

use crate::key::AccountHash;
use crate::uint::U256;

verus! {

/// A key type of a dictionary: one whose sameness can be tested.
pub trait DictKey: Copy + Sized {
    fn same_key(&self, other: &Self) -> (r: bool)
        ensures
            r == (*self == *other),
    ;
}

impl DictKey for U256 {
    fn same_key(&self, other: &Self) -> (r: bool) {
        *self == *other
    }
}

impl DictKey for AccountHash {
    fn same_key(&self, other: &Self) -> (r: bool) {
        self.same(other)
    }
}

/// Items stored under distinct keys, in the order the keys were first written.
pub struct Dict<K, V> {
    entries: Vec<(K, V)>,
}

impl<K, V> Dict<K, V> {
    /// No key occurs twice.
    #[verifier::type_invariant]
    closed spec fn keys_distinct(self) -> bool {
        forall|i: int, j: int|
            0 <= i < j < self.entries@.len() ==> #[trigger] self.entries@[i].0 != #[trigger] self.entries@[j].0
    }

    closed spec fn has_key_at(self, k: K, i: int) -> bool {
        0 <= i < self.entries@.len() && self.entries@[i].0 == k
    }

    closed spec fn position_of(self, k: K) -> int {
        choose|i: int| self.has_key_at(k, i)
    }

    proof fn lemma_item_at(self, i: int)
        requires
            self.keys_distinct(),
            0 <= i < self.entries@.len(),
        ensures
            self@.contains_key(self.entries@[i].0),
            self@[self.entries@[i].0] == self.entries@[i].1,
    {
        let k = self.entries@[i].0;
        assert(self.has_key_at(k, i));
        let j = self.position_of(k);
        assert(self.has_key_at(k, j));
        if i < j {
            assert(self.entries@[i].0 != self.entries@[j].0);
        } else if j < i {
            assert(self.entries@[j].0 != self.entries@[i].0);
        }
    }

    /// An empty dictionary.
    pub fn new() -> (d: Self)
        ensures
            d@ == Map::<K, V>::empty(),
    {
        let d = Dict { entries: Vec::new() };
        assert(d@ =~= Map::<K, V>::empty());
        d
    }

    fn find(&self, k: &K) -> (r: Option<usize>)
        where K: DictKey
        ensures
            match r {
                Some(i) => i < self.entries@.len() && self.entries@[i as int].0 == *k,
                None => forall|i: int| 0 <= i < self.entries@.len() ==> self.entries@[i].0 != *k,
            },
    {
        let mut i: usize = 0;
        while i < self.entries.len()
            invariant
                i <= self.entries@.len(),
                forall|j: int| 0 <= j < i ==> self.entries@[j].0 != *k,
            decreases self.entries@.len() - i,
        {
            if self.entries[i].0.same_key(k) {
                return Some(i);
            }
            i += 1;
        }
        None
    }

    /// Whether an item is stored under `k`.
    pub fn contains_key(&self, k: &K) -> (r: bool)
        where K: DictKey
        ensures
            r == self@.contains_key(*k),
    {
        proof { use_type_invariant(self); }
        match self.find(k) {
            Some(i) => {
                proof { self.lemma_item_at(i as int); }
                true
            },
            None => false,
        }
    }

    /// The item stored under `k`, if any.
    pub fn get(&self, k: &K) -> (r: Option<&V>)
        where K: DictKey
        ensures
            r.is_some() == self@.contains_key(*k),
            r matches Some(v) ==> *v == self@[*k],
    {
        proof { use_type_invariant(self); }
        match self.find(k) {
            Some(i) => {
                proof { self.lemma_item_at(i as int); }
                Some(&self.entries[i].1)
            },
            None => None,
        }
    }

    /// Stores `v` under `k`, replacing what was stored there.
    pub fn upsert(&mut self, k: K, v: V)
        where K: DictKey
        ensures
            final(self)@ == old(self)@.insert(k, v),
    {
        proof { use_type_invariant(&*self); }
        let ghost pre = *self;
        match self.find(&k) {
            Some(i) => {
                let mut entries: Vec<(K, V)> = Vec::new();
                std::mem::swap(&mut entries, &mut self.entries);
                entries.set(i, (k, v));
                self.entries = entries;
                proof {
                    let post = *self;
                    assert(post.keys_distinct()) by {
                        assert forall|a: int, b: int| 0 <= a < b < post.entries@.len() implies
                            post.entries@[a].0 != post.entries@[b].0 by {
                            if a != i as int && b != i as int {
                                assert(pre.entries@[a].0 != pre.entries@[b].0);
                            } else if a == i as int {
                                assert(pre.entries@[a].0 != pre.entries@[b].0);
                            } else {
                                assert(pre.entries@[a].0 != pre.entries@[b].0);
                            }
                        }
                    }
                    assert forall|kk: K| #[trigger] post@.contains_key(kk) == pre@.insert(k, v).contains_key(kk) by {
                        if post@.contains_key(kk) {
                            let j = choose|j: int| post.has_key_at(kk, j);
                            if j != i as int {
                                assert(pre.has_key_at(kk, j));
                            }
                        }
                        if pre@.contains_key(kk) {
                            let j = choose|j: int| pre.has_key_at(kk, j);
                            assert(post.has_key_at(kk, j));
                        }
                        if kk == k {
                            assert(post.has_key_at(kk, i as int));
                        }
                    }
                    assert forall|kk: K| #[trigger] post@.contains_key(kk) implies post@[kk] == pre@.insert(k, v)[kk] by {
                        let j = choose|j: int| post.has_key_at(kk, j);
                        post.lemma_item_at(j);
                        if j != i as int {
                            pre.lemma_item_at(j);
                        }
                    }
                    assert(post@ =~= pre@.insert(k, v));
                }
            },
            None => {
                let mut entries: Vec<(K, V)> = Vec::new();
                std::mem::swap(&mut entries, &mut self.entries);
                entries.push((k, v));
                self.entries = entries;
                proof {
                    let post = *self;
                    let n = pre.entries@.len() as int;
                    assert(post.keys_distinct()) by {
                        assert forall|a: int, b: int| 0 <= a < b < post.entries@.len() implies
                            post.entries@[a].0 != post.entries@[b].0 by {
                            if b < n {
                                assert(pre.entries@[a].0 != pre.entries@[b].0);
                            } else {
                                assert(pre.entries@[a].0 != k);
                            }
                        }
                    }
                    assert forall|kk: K| #[trigger] post@.contains_key(kk) == pre@.insert(k, v).contains_key(kk) by {
                        if post@.contains_key(kk) {
                            let j = choose|j: int| post.has_key_at(kk, j);
                            if j != n {
                                assert(pre.has_key_at(kk, j));
                            }
                        }
                        if pre@.contains_key(kk) {
                            let j = choose|j: int| pre.has_key_at(kk, j);
                            assert(post.has_key_at(kk, j));
                        }
                        if kk == k {
                            assert(post.has_key_at(kk, n));
                        }
                    }
                    assert forall|kk: K| #[trigger] post@.contains_key(kk) implies post@[kk] == pre@.insert(k, v)[kk] by {
                        let j = choose|j: int| post.has_key_at(kk, j);
                        post.lemma_item_at(j);
                        if j != n {
                            pre.lemma_item_at(j);
                        }
                    }
                    assert(post@ =~= pre@.insert(k, v));
                }
            },
        }
    }
}

impl<K, V> View for Dict<K, V> {
    type V = Map<K, V>;

    closed spec fn view(&self) -> Map<K, V> {
        Map::new(
            |k: K| exists|i: int| self.has_key_at(k, i),
            |k: K| self.entries@[self.position_of(k)].1,
        )
    }
}

} // verus!
