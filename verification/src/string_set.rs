//! A set of identifiers that is walked in key order.

use crate::sorted_map::SortedMap;
use vstd::prelude::*;

verus! {

/// A set of identifiers, kept in key order.
pub struct StringSet {
    members: SortedMap<()>,
}

impl StringSet {
    /// The invariant of the underlying map.
    pub closed spec fn wf(&self) -> bool {
        self.members.wf()
    }

    /// The members, in the order in which the set is walked.
    pub closed spec fn keys(&self) -> Seq<Seq<char>> {
        self.members.keys()
    }

    /// The set that the members stand for.
    pub closed spec fn view(&self) -> Set<Seq<char>> {
        self.members@.dom()
    }

    /// The members are exactly the keys, and the keys are strictly increasing.
    pub proof fn lemma_keys(&self)
        requires
            self.wf(),
        ensures
            crate::sorted_map::strictly_sorted(self.keys()),
            forall|k: Seq<char>| self@.contains(k) <==> self.keys().contains(k),
    {
    }

    /// The empty set.
    pub fn new() -> (s: Self)
        ensures
            s.wf(),
            s@ == Set::<Seq<char>>::empty(),
            s.keys() == Seq::<Seq<char>>::empty(),
    {
        let s = StringSet { members: SortedMap::new() };
        proof {
            assert(s@ =~= Set::<Seq<char>>::empty());
        }
        s
    }

    /// The number of members.
    pub fn len(&self) -> (n: usize)
        requires
            self.wf(),
        ensures
            n == self.keys().len(),
    {
        self.members.len()
    }

    /// The member at place `i`.
    pub fn key_at(&self, i: usize) -> (k: &String)
        requires
            self.wf(),
            i < self.keys().len(),
        ensures
            k@ == self.keys()[i as int],
            self@.contains(k@),
    {
        proof {
            self.members.lemma_entry(i as int);
        }
        self.members.key_at(i)
    }

    /// Whether `key` is a member.
    pub fn contains(&self, key: &str) -> (r: bool)
        requires
            self.wf(),
        ensures
            r == self@.contains(key@),
    {
        self.members.contains_key(key)
    }

    /// Adds `key`; says whether it is new.
    pub fn insert(&mut self, key: String) -> (fresh: bool)
        requires
            old(self).wf(),
        ensures
            final(self).wf(),
            final(self)@ == old(self)@.insert(key@),
            fresh == !old(self)@.contains(key@),
    {
        let fresh = self.members.insert(key, ());
        proof {
            assert(self@ =~= old(self)@.insert(key@));
        }
        fresh
    }

    /// Takes `key` out; says whether it was a member.
    pub fn remove(&mut self, key: &str) -> (present: bool)
        requires
            old(self).wf(),
        ensures
            final(self).wf(),
            final(self)@ == old(self)@.remove(key@),
            present == old(self)@.contains(key@),
    {
        let r = self.members.remove(key);
        proof {
            assert(self@ =~= old(self)@.remove(key@));
        }
        r.is_some()
    }

    /// The members as a list, in key order.
    pub fn to_vec(&self) -> (v: Vec<String>)
        requires
            self.wf(),
        ensures
            v@.len() == self.keys().len(),
            forall|i: int| 0 <= i < v@.len() ==> (#[trigger] v@[i])@ == self.keys()[i],
    {
        let mut v: Vec<String> = Vec::new();
        let mut i: usize = 0;
        while i < self.members.len()
            invariant
                self.wf(),
                i <= self.keys().len(),
                v@.len() == i,
                forall|j: int| 0 <= j < i ==> (#[trigger] v@[j])@ == self.keys()[j],
            decreases self.keys().len() - i,
        {
            v.push(self.members.key_at(i).clone());
            i += 1;
        }
        v
    }
}

} // verus!
