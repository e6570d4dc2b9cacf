//! A map with two levels of keys, both walked in key order.

use crate::sorted_map::SortedMap;
use vstd::prelude::*;

verus! {

/// A map from pairs of identifiers to values: by the first, then the second.
pub struct NestedMap<V> {
    outer: SortedMap<SortedMap<V>>,
}

impl<V> NestedMap<V> {
    /// The invariant of the two levels: both are in key order, and no first
    /// key is without an entry.
    pub closed spec fn wf(&self) -> bool {
        &&& self.outer.wf()
        &&& forall|k: Seq<char>| #[trigger]
            self.outer@.dom().contains(k) ==> self.outer@[k].wf() && self.outer@[k].keys().len() > 0
    }

    /// The first-level keys are strictly increasing, and they are the first
    /// keys of the entries.
    pub proof fn lemma_keys(&self)
        requires
            self.wf(),
        ensures
            crate::sorted_map::strictly_sorted(self.keys()),
            forall|first: Seq<char>|
                self.keys().contains(first) <==> exists|second: Seq<char>| #[trigger]
                    self@.dom().contains((first, second)),
    {
        assert forall|first: Seq<char>|
            self.keys().contains(first) <==> exists|second: Seq<char>| #[trigger]
                self@.dom().contains((first, second)) by {
            if self.keys().contains(first) {
                assert(self.outer@.dom().contains(first));
                let inner = self.outer@[first];
                inner.lemma_entry(0);
                assert(self@.dom().contains((first, inner.keys()[0])));
            }
        }
    }

    /// The first-level keys, in the order in which the map is walked.
    pub closed spec fn keys(&self) -> Seq<Seq<char>> {
        self.outer.keys()
    }

    /// The map that the entries stand for.
    pub closed spec fn view(&self) -> Map<(Seq<char>, Seq<char>), V> {
        Map::new(
            |k: (Seq<char>, Seq<char>)|
                self.outer@.dom().contains(k.0) && self.outer@[k.0]@.dom().contains(k.1),
            |k: (Seq<char>, Seq<char>)| self.outer@[k.0]@[k.1],
        )
    }

    /// An empty map.
    pub fn new() -> (m: Self)
        ensures
            m.wf(),
            m@ == Map::<(Seq<char>, Seq<char>), V>::empty(),
            m.keys().len() == 0,
    {
        let m = NestedMap { outer: SortedMap::new() };
        proof {
            assert(m@ =~= Map::<(Seq<char>, Seq<char>), V>::empty());
        }
        m
    }

    /// Stores `value` under the pair of keys, in place of what was there.
    pub fn insert(&mut self, first: String, second: String, value: V)
        requires
            old(self).wf(),
        ensures
            final(self).wf(),
            final(self)@ == old(self)@.insert((first@, second@), value),
    {
        let ghost before = self.outer;
        let mut inner = match self.outer.remove(first.as_str()) {
            Some(m) => m,
            None => SortedMap::new(),
        };
        let ghost inner_before = inner;
        let ghost a = first@;
        let ghost b = second@;
        inner.insert(second, value);
        self.outer.insert(first, inner);
        proof {
            assert(self.outer@ =~= before@.insert(a, inner));
            assert forall|k: Seq<char>| #[trigger]
                self.outer@.dom().contains(k) implies self.outer@[k].wf() && self.outer@[k].keys().len()
                > 0 by {
                if k != a {
                    assert(before@.dom().contains(k));
                }
            }
            assert(self@ =~= old(self)@.insert((a, b), value));
        }
    }

    /// The value stored under the pair of keys.
    pub fn get(&self, first: &str, second: &str) -> (r: Option<&V>)
        requires
            self.wf(),
        ensures
            match r {
                Some(v) => self@.dom().contains((first@, second@)) && *v == self@[(first@, second@)],
                None => !self@.dom().contains((first@, second@)),
            },
    {
        match self.outer.get(first) {
            None => None,
            Some(inner) => inner.get(second),
        }
    }

    /// The number of first-level keys.
    pub fn len(&self) -> (n: usize)
        requires
            self.wf(),
        ensures
            n == self.keys().len(),
    {
        self.outer.len()
    }

    /// The first-level key at place `i`.
    pub fn key_at(&self, i: usize) -> (k: &String)
        requires
            self.wf(),
            i < self.keys().len(),
        ensures
            k@ == self.keys()[i as int],
    {
        self.outer.key_at(i)
    }

    /// The entries under one first-level key.
    pub fn entries_of(&self, first: &str) -> (r: Option<&SortedMap<V>>)
        requires
            self.wf(),
        ensures
            match r {
                Some(m) => m.wf() && m.keys().len() > 0 && forall|second: Seq<char>|
                    (#[trigger] m@.dom().contains(second) <==> self@.dom().contains(
                        (first@, second),
                    )) && (m@.dom().contains(second) ==> m@[second] == self@[(first@, second)]),
                None => forall|second: Seq<char>| !#[trigger] self@.dom().contains((first@, second)),
            },
    {
        self.outer.get(first)
    }
}

} // verus!
