//! A map keyed by identifiers that is walked in key order.

use crate::text::{key_lt, lemma_key_lt_irreflexive, lemma_key_lt_total, lemma_key_lt_transitive, str_less};
use vstd::prelude::*;

verus! {

/// Whether a sequence of keys is strictly increasing.
pub open spec fn strictly_sorted(keys: Seq<Seq<char>>) -> bool {
    forall|i: int, j: int| 0 <= i < j < keys.len() ==> key_lt(#[trigger] keys[i], #[trigger] keys[j])
}

/// In a strictly increasing sequence every key stands at one place only.
pub proof fn lemma_sorted_distinct(keys: Seq<Seq<char>>, i: int, j: int)
    requires
        strictly_sorted(keys),
        0 <= i < keys.len(),
        0 <= j < keys.len(),
        keys[i] == keys[j],
    ensures
        i == j,
{
    lemma_key_lt_irreflexive(keys[i]);
}

/// The place of `key` in `keys`, where it occurs.
pub open spec fn position(keys: Seq<Seq<char>>, key: Seq<char>) -> int {
    choose|i: int| 0 <= i < keys.len() && keys[i] == key
}

/// A map from identifiers to values, kept in key order.
pub struct SortedMap<V> {
    names: Vec<String>,
    items: Vec<V>,
}

impl<V> SortedMap<V> {
    /// The keys, in the order in which the map is walked.
    pub closed spec fn keys(&self) -> Seq<Seq<char>> {
        Seq::new(self.names@.len(), |i: int| self.names@[i]@)
    }

    /// The values, each at the place of its key.
    pub closed spec fn values(&self) -> Seq<V> {
        self.items@
    }

    /// The invariant: one value per key, keys strictly increasing.
    pub open spec fn wf(&self) -> bool {
        &&& self.keys().len() == self.values().len()
        &&& strictly_sorted(self.keys())
    }

    /// The map that the entries stand for.
    pub open spec fn view(&self) -> Map<Seq<char>, V> {
        Map::new(
            |k: Seq<char>| self.keys().contains(k),
            |k: Seq<char>| self.values()[position(self.keys(), k)],
        )
    }

    /// In a well-formed map the value at a place belongs to the key at that place.
    pub proof fn lemma_entry(&self, i: int)
        requires
            self.wf(),
            0 <= i < self.keys().len(),
        ensures
            self@.dom().contains(self.keys()[i]),
            self@[self.keys()[i]] == self.values()[i],
    {
        let keys = self.keys();
        assert(keys.contains(keys[i]));
        lemma_sorted_distinct(keys, i, position(keys, keys[i]));
    }

    /// An empty map.
    pub fn new() -> (m: Self)
        ensures
            m.wf(),
            m.keys() == Seq::<Seq<char>>::empty(),
            m@ == Map::<Seq<char>, V>::empty(),
    {
        let m = SortedMap { names: Vec::new(), items: Vec::new() };
        proof {
            assert(m.keys() =~= Seq::<Seq<char>>::empty());
            assert(m@ =~= Map::<Seq<char>, V>::empty());
        }
        m
    }

    /// The number of entries.
    pub fn len(&self) -> (n: usize)
        requires
            self.wf(),
        ensures
            n == self.keys().len(),
    {
        self.names.len()
    }

    /// The key at place `i`.
    pub fn key_at(&self, i: usize) -> (k: &String)
        requires
            self.wf(),
            i < self.keys().len(),
        ensures
            k@ == self.keys()[i as int],
    {
        &self.names[i]
    }

    /// The value at place `i`.
    pub fn value_at(&self, i: usize) -> (v: &V)
        requires
            self.wf(),
            i < self.keys().len(),
        ensures
            *v == self.values()[i as int],
    {
        &self.items[i]
    }

    /// The first place whose key is not below `key`.
    fn lower_bound(&self, key: &str) -> (p: usize)
        requires
            self.wf(),
        ensures
            p <= self.keys().len(),
            forall|i: int| 0 <= i < p ==> key_lt(#[trigger] self.keys()[i], key@),
            p < self.keys().len() ==> !key_lt(self.keys()[p as int], key@),
    {
        let mut p: usize = 0;
        while p < self.names.len()
            invariant
                p <= self.names@.len(),
                self.keys().len() == self.names@.len(),
                forall|i: int| 0 <= i < p ==> key_lt(#[trigger] self.keys()[i], key@),
            decreases self.names@.len() - p,
        {
            if !str_less(self.names[p].as_str(), key) {
                return p;
            }
            p += 1;
        }
        p
    }

    /// The place of `key`, where the map holds it.
    pub fn find(&self, key: &str) -> (r: Option<usize>)
        requires
            self.wf(),
        ensures
            match r {
                Some(i) => i < self.keys().len() && self.keys()[i as int] == key@,
                None => !self.keys().contains(key@),
            },
            r is Some <==> self@.dom().contains(key@),
    {
        let p = self.lower_bound(key);
        if p < self.names.len() && !str_less(key, self.names[p].as_str()) {
            proof {
                lemma_key_lt_total(self.keys()[p as int], key@);
                assert(self.keys().contains(key@));
            }
            Some(p)
        } else {
            proof {
                let keys = self.keys();
                assert forall|i: int| 0 <= i < keys.len() implies keys[i] != key@ by {
                    lemma_key_lt_irreflexive(key@);
                    if i > p {
                        lemma_key_lt_transitive(key@, keys[p as int], keys[i]);
                    }
                }
            }
            None
        }
    }

    /// Whether the map holds `key`.
    pub fn contains_key(&self, key: &str) -> (r: bool)
        requires
            self.wf(),
        ensures
            r == self@.dom().contains(key@),
    {
        self.find(key).is_some()
    }

    /// The value stored under `key`.
    pub fn get(&self, key: &str) -> (r: Option<&V>)
        requires
            self.wf(),
        ensures
            match r {
                Some(v) => self@.dom().contains(key@) && *v == self@[key@],
                None => !self@.dom().contains(key@),
            },
    {
        match self.find(key) {
            Some(i) => {
                proof {
                    self.lemma_entry(i as int);
                }
                Some(&self.items[i])
            },
            None => None,
        }
    }

    /// Stores `value` under `key`, in place of what was stored there; says
    /// whether the key is new.
    pub fn insert(&mut self, key: String, value: V) -> (fresh: bool)
        requires
            old(self).wf(),
        ensures
            final(self).wf(),
            final(self)@ == old(self)@.insert(key@, value),
            fresh == !old(self)@.dom().contains(key@),
            fresh ==> final(self).keys().len() == old(self).keys().len() + 1,
            !fresh ==> final(self).keys() == old(self).keys(),
    {
        let p = self.lower_bound(key.as_str());
        let ghost before = *self;
        let ghost k = key@;
        if p < self.names.len() && !str_less(key.as_str(), self.names[p].as_str()) {
            proof {
                lemma_key_lt_total(before.keys()[p as int], k);
            }
            self.items[p] = value;
            proof {
                assert(self.keys() =~= before.keys());
                assert(before.keys().contains(k));
                let keys = self.keys();
                assert forall|q: Seq<char>| keys.contains(q) implies #[trigger] self@[q]
                    == before@.insert(k, value)[q] by {
                    let i = position(keys, q);
                    if q == k {
                        lemma_sorted_distinct(keys, i, p as int);
                    }
                }
                assert(self@ =~= before@.insert(k, value));
            }
            false
        } else {
            proof {
                let keys = before.keys();
                assert forall|i: int| 0 <= i < keys.len() implies keys[i] != k by {
                    lemma_key_lt_irreflexive(k);
                    if i > p {
                        lemma_key_lt_transitive(k, keys[p as int], keys[i]);
                    }
                }
                if p < keys.len() {
                    lemma_key_lt_total(keys[p as int], k);
                }
            }
            self.names.insert(p, key);
            self.items.insert(p, value);
            proof {
                let old_keys = before.keys();
                let keys = self.keys();
                assert(keys =~= old_keys.insert(p as int, k));
                assert forall|i: int, j: int| 0 <= i < j < keys.len() implies key_lt(
                    #[trigger] keys[i],
                    #[trigger] keys[j],
                ) by {
                    if j == p {
                        assert(keys[i] == old_keys[i]);
                    } else if i == p {
                        assert(keys[j] == old_keys[j - 1]);
                        if j - 1 > p {
                            lemma_key_lt_transitive(k, old_keys[p as int], old_keys[j - 1]);
                        }
                    } else {
                        let a = if i < p { i } else { i - 1 };
                        let b = if j < p { j } else { j - 1 };
                        assert(keys[i] == old_keys[a]);
                        assert(keys[j] == old_keys[b]);
                    }
                }
                assert(keys[p as int] == k);
                assert forall|q: Seq<char>| keys.contains(q) <==> (q == k || old_keys.contains(q)) by {
                    if keys.contains(q) {
                        let i = position(keys, q);
                        if i < p {
                            assert(old_keys[i] == q);
                        } else if i > p {
                            assert(old_keys[i - 1] == q);
                        }
                    }
                    if old_keys.contains(q) {
                        let i = position(old_keys, q);
                        let j = if i < p { i } else { i + 1 };
                        assert(keys[j] == q);
                    }
                }
                assert forall|q: Seq<char>| keys.contains(q) implies #[trigger] self@[q]
                    == before@.insert(k, value)[q] by {
                    let i = position(keys, q);
                    if q == k {
                        lemma_sorted_distinct(keys, i, p as int);
                    } else {
                        let a = if i < p { i } else { i - 1 };
                        assert(old_keys[a] == q);
                        lemma_sorted_distinct(old_keys, a, position(old_keys, q));
                    }
                }
                assert(self@ =~= before@.insert(k, value));
            }
            true
        }
    }

    /// Takes the entry under `key` out of the map.
    pub fn remove(&mut self, key: &str) -> (r: Option<V>)
        requires
            old(self).wf(),
        ensures
            final(self).wf(),
            final(self)@ == old(self)@.remove(key@),
            match r {
                Some(v) => old(self)@.dom().contains(key@) && v == old(self)@[key@],
                None => !old(self)@.dom().contains(key@),
            },
    {
        let ghost before = *self;
        match self.find(key) {
            None => {
                proof {
                    assert(self@ =~= before@.remove(key@));
                }
                None
            },
            Some(p) => {
                proof {
                    before.lemma_entry(p as int);
                }
                self.names.remove(p);
                let v = self.items.remove(p);
                proof {
                    let old_keys = before.keys();
                    let keys = self.keys();
                    assert(keys =~= old_keys.remove(p as int));
                    assert forall|i: int, j: int| 0 <= i < j < keys.len() implies key_lt(
                        #[trigger] keys[i],
                        #[trigger] keys[j],
                    ) by {
                        let a = if i < p { i } else { i + 1 };
                        let b = if j < p { j } else { j + 1 };
                        assert(keys[i] == old_keys[a]);
                        assert(keys[j] == old_keys[b]);
                    }
                    assert forall|q: Seq<char>| keys.contains(q) <==> (q != key@
                        && old_keys.contains(q)) by {
                        if keys.contains(q) {
                            let i = position(keys, q);
                            let a = if i < p { i } else { i + 1 };
                            assert(old_keys[a] == q);
                            if q == key@ {
                                lemma_sorted_distinct(old_keys, a, p as int);
                            }
                        }
                        if q != key@ && old_keys.contains(q) {
                            let i = position(old_keys, q);
                            let j = if i < p { i } else { i - 1 };
                            assert(keys[j] == q);
                        }
                    }
                    assert forall|q: Seq<char>| keys.contains(q) implies #[trigger] self@[q]
                        == before@[q] by {
                        let i = position(keys, q);
                        let a = if i < p { i } else { i + 1 };
                        assert(old_keys[a] == q);
                        lemma_sorted_distinct(old_keys, a, position(old_keys, q));
                    }
                    assert(self@ =~= before@.remove(key@));
                }
                Some(v)
            },
        }
    }
}

} // verus!
