//! A map keyed by text, in which each key occurs at most once.

use vstd::prelude::*;

verus! {

/// A finite map from strings to values, kept as a list of entries whose keys
/// are pairwise distinct.
pub struct StrMap<V> {
    entries: Vec<(String, V)>,
}

impl<V> StrMap<V> {
    /// No key occurs in two entries.
    #[verifier::type_invariant]
    spec fn keys_distinct(self) -> bool {
        forall|i: int, j: int|
            0 <= i < j < self.entries@.len() ==> #[trigger] self.entries@[i].0@
                != #[trigger] self.entries@[j].0@
    }

    /// Whether some entry has the key `k`.
    spec fn has_entry(self, k: Seq<char>) -> bool {
        exists|i: int| 0 <= i < self.entries@.len() && #[trigger] self.entries@[i].0@ == k
    }

    /// The position of the entry with key `k`.
    spec fn position(self, k: Seq<char>) -> int {
        choose|i: int| 0 <= i < self.entries@.len() && #[trigger] self.entries@[i].0@ == k
    }

    /// The map from each key's text to its value.
    pub closed spec fn view(&self) -> Map<Seq<char>, V> {
        Map::new(|k: Seq<char>| self.has_entry(k), |k: Seq<char>| self.entries@[self.position(k)].1)
    }

    /// The only entry with key `k` is at position `i`.
    proof fn lemma_position(self, i: int)
        requires
            self.keys_distinct(),
            0 <= i < self.entries@.len(),
        ensures
            self.has_entry(self.entries@[i].0@),
            self.position(self.entries@[i].0@) == i,
            self@.contains_key(self.entries@[i].0@),
            self@[self.entries@[i].0@] == self.entries@[i].1,
    {
        let k = self.entries@[i].0@;
        assert(self.has_entry(k));
        let p = self.position(k);
        if p != i {
            if p < i {
                assert(self.entries@[p].0@ != self.entries@[i].0@);
            } else {
                assert(self.entries@[i].0@ != self.entries@[p].0@);
            }
        }
    }

    /// The empty map.
    pub fn new() -> (m: Self)
        ensures
            m@ == Map::<Seq<char>, V>::empty(),
    {
        let m = StrMap { entries: Vec::new() };
        assert(m@ =~= Map::<Seq<char>, V>::empty());
        m
    }

    /// The position of the entry with the given key, if there is one.
    fn find(&self, key: &String) -> (r: Option<usize>)
        ensures
            match r {
                Some(i) => i < self.entries@.len() && self.entries@[i as int].0@ == key@,
                None => !self.has_entry(key@),
            },
    {
        let mut i: usize = 0;
        while i < self.entries.len()
            invariant
                0 <= i <= self.entries@.len(),
                forall|j: int| 0 <= j < i ==> #[trigger] self.entries@[j].0@ != key@,
            decreases self.entries@.len() - i,
        {
            if self.entries[i].0 == *key {
                return Some(i);
            }
            i = i + 1;
        }
        None
    }

    /// Whether the map has the key.
    pub fn contains_key(&self, key: &String) -> (r: bool)
        ensures
            r == self@.contains_key(key@),
    {
        self.find(key).is_some()
    }

    /// The value at the key, if there is one.
    pub fn get(&self, key: &String) -> (r: Option<&V>)
        ensures
            r is Some <==> self@.contains_key(key@),
            r matches Some(v) ==> *v == self@[key@],
    {
        proof {
            use_type_invariant(self);
        }
        match self.find(key) {
            Some(i) => {
                proof {
                    self.lemma_position(i as int);
                }
                Some(&self.entries[i].1)
            },
            None => None,
        }
    }

    /// Sets the value at the key, replacing the one that was there.
    pub fn insert(&mut self, key: String, value: V)
        ensures
            final(self)@ == old(self)@.insert(key@, value),
    {
        proof {
            use_type_invariant(&*self);
        }
        match self.find(&key) {
            Some(i) => {
                let ghost before = *self;
                let ghost k = key@;
                let mut entries: Vec<(String, V)> = Vec::new();
                std::mem::swap(&mut entries, &mut self.entries);
                entries.set(i, (key, value));
                proof {
                    assert forall|a: int, b: int|
                        0 <= a < b < entries@.len() implies #[trigger] entries@[a].0@
                        != #[trigger] entries@[b].0@ by {
                        assert(before.entries@[a].0@ != before.entries@[b].0@);
                    }
                }
                self.entries = entries;
                proof {
                    assert forall|k2: Seq<char>| #[trigger] self.has_entry(k2) <==> before.has_entry(k2)
                        by {
                        if self.has_entry(k2) {
                            let p = self.position(k2);
                            assert(before.entries@[p].0@ == k2);
                        }
                        if before.has_entry(k2) {
                            let p = before.position(k2);
                            assert(self.entries@[p].0@ == k2);
                        }
                    }
                    assert forall|k2: Seq<char>| #[trigger] self@.contains_key(k2) implies self@[k2]
                        == before@.insert(k, value)[k2] by {
                        let p = self.position(k2);
                        self.lemma_position(p);
                        before.lemma_position(p);
                    }
                    assert(self@ =~= before@.insert(k, value));
                }
            },
            None => {
                let ghost before = *self;
                let ghost k = key@;
                let mut entries: Vec<(String, V)> = Vec::new();
                std::mem::swap(&mut entries, &mut self.entries);
                entries.push((key, value));
                let ghost n = before.entries@.len() as int;
                proof {
                    assert forall|a: int, b: int|
                        0 <= a < b < entries@.len() implies #[trigger] entries@[a].0@
                        != #[trigger] entries@[b].0@ by {
                        if b == n {
                            if entries@[a].0@ == k {
                                assert(before.entries@[a].0@ == k);
                            }
                        } else {
                            assert(before.entries@[a].0@ != before.entries@[b].0@);
                        }
                    }
                }
                self.entries = entries;
                proof {
                    assert forall|k2: Seq<char>| #[trigger] self.has_entry(k2) <==> (before.has_entry(
                        k2,
                    ) || k2 == k) by {
                        if self.has_entry(k2) {
                            let p = self.position(k2);
                            if p < n {
                                assert(before.entries@[p].0@ == k2);
                            }
                        }
                        if before.has_entry(k2) {
                            let p = before.position(k2);
                            assert(self.entries@[p].0@ == k2);
                        }
                        if k2 == k {
                            assert(self.entries@[n].0@ == k2);
                        }
                    }
                    assert forall|k2: Seq<char>| #[trigger] self@.contains_key(k2) implies self@[k2]
                        == before@.insert(k, value)[k2] by {
                        let p = self.position(k2);
                        self.lemma_position(p);
                        if p < n {
                            before.lemma_position(p);
                        }
                    }
                    assert(self@ =~= before@.insert(k, value));
                }
            },
        }
    }
}

} // verus!
