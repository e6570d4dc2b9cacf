//! The index of imported room keys: room, then sender key, then session ids.

use crate::sorted_map::SortedMap;
use crate::string_set::StringSet;
use vstd::prelude::*;

verus! {

/// The session ids of imported room keys, by room and by sender key.
pub struct RoomKeyIndex {
    rooms: SortedMap<SortedMap<StringSet>>,
}

/// The invariant of the session ids of one room.
pub open spec fn senders_wf(senders: SortedMap<StringSet>) -> bool {
    &&& senders.wf()
    &&& forall|s: Seq<char>| #[trigger] senders@.dom().contains(s) ==> senders@[s].wf()
}

/// Whether the session ids of one room hold `id` under `sender`.
pub open spec fn senders_hold(senders: SortedMap<StringSet>, sender: Seq<char>, id: Seq<char>) -> bool {
    senders@.dom().contains(sender) && senders@[sender]@.contains(id)
}

impl RoomKeyIndex {
    /// The invariant of the nested maps.
    pub closed spec fn wf(&self) -> bool {
        &&& self.rooms.wf()
        &&& forall|r: Seq<char>| #[trigger] self.rooms@.dom().contains(r) ==> senders_wf(self.rooms@[r])
    }

    /// Whether the index holds session `id` of `sender` in `room`.
    pub closed spec fn contains(&self, room: Seq<char>, sender: Seq<char>, id: Seq<char>) -> bool {
        self.rooms@.dom().contains(room) && senders_hold(self.rooms@[room], sender, id)
    }

    /// The rooms that the index has an entry for, in key order.
    pub closed spec fn rooms(&self) -> Seq<Seq<char>> {
        self.rooms.keys()
    }

    /// An index that holds nothing.
    pub fn new() -> (r: Self)
        ensures
            r.wf(),
            r.rooms().len() == 0,
            forall|room: Seq<char>, sender: Seq<char>, id: Seq<char>|
                !#[trigger] r.contains(room, sender, id),
    {
        RoomKeyIndex { rooms: SortedMap::new() }
    }

    /// Adds session `id` of `sender` in `room`.
    pub fn insert(&mut self, room: &str, sender: &str, id: &str)
        requires
            old(self).wf(),
        ensures
            final(self).wf(),
            forall|r: Seq<char>, s: Seq<char>, i: Seq<char>| #[trigger]
                final(self).contains(r, s, i) <==> old(self).contains(r, s, i) || (r == room@ && s
                    == sender@ && i == id@),
    {
        let ghost before = self.rooms;
        let mut senders = match self.rooms.remove(room) {
            Some(m) => m,
            None => SortedMap::new(),
        };
        let ghost senders_before = senders;
        let mut ids = match senders.remove(sender) {
            Some(s) => s,
            None => StringSet::new(),
        };
        let ghost ids_before = ids;
        ids.insert(id.to_owned());
        senders.insert(sender.to_owned(), ids);
        self.rooms.insert(room.to_owned(), senders);
        proof {
            assert(self.rooms@ =~= before@.insert(room@, senders));
            assert(senders@ =~= senders_before@.insert(sender@, ids));
            assert forall|s: Seq<char>| #[trigger] senders@.dom().contains(s) implies senders@[s].wf() by {
                if s != sender@ {
                    assert(senders_before@.dom().contains(s));
                }
            }
            assert forall|r: Seq<char>| #[trigger] self.rooms@.dom().contains(r) implies senders_wf(
                self.rooms@[r],
            ) by {
                if r != room@ {
                    assert(before@.dom().contains(r));
                }
            }
            assert forall|r: Seq<char>, s: Seq<char>, i: Seq<char>| #[trigger]
                self.contains(r, s, i) <==> old(self).contains(r, s, i) || (r == room@ && s
                    == sender@ && i == id@) by {
                if r == room@ {
                    if s == sender@ {
                        assert(ids@.contains(i) <==> ids_before@.contains(i) || i == id@);
                    } else {
                        assert(senders@.dom().contains(s) <==> senders_before@.dom().contains(s));
                    }
                }
            }
        }
    }

    /// Whether the index holds session `id` of `sender` in `room`.
    pub fn has(&self, room: &str, sender: &str, id: &str) -> (r: bool)
        requires
            self.wf(),
        ensures
            r == self.contains(room@, sender@, id@),
    {
        match self.rooms.get(room) {
            None => false,
            Some(senders) => match senders.get(sender) {
                None => false,
                Some(ids) => ids.contains(id),
            },
        }
    }

    /// The number of rooms that the index has an entry for.
    pub fn room_count(&self) -> (n: usize)
        requires
            self.wf(),
        ensures
            n == self.rooms().len(),
    {
        self.rooms.len()
    }

    /// The room at place `i`, in key order.
    pub fn room_at(&self, i: usize) -> (r: &String)
        requires
            self.wf(),
            i < self.rooms().len(),
        ensures
            r@ == self.rooms()[i as int],
    {
        self.rooms.key_at(i)
    }

    /// The session ids of `room`, by sender key.
    pub fn senders_of(&self, room: &str) -> (r: Option<&SortedMap<StringSet>>)
        requires
            self.wf(),
        ensures
            match r {
                Some(m) => senders_wf(*m) && forall|s: Seq<char>, i: Seq<char>|
                    self.contains(room@, s, i) <==> #[trigger] senders_hold(*m, s, i),
                None => forall|s: Seq<char>, i: Seq<char>| !#[trigger] self.contains(room@, s, i),
            },
    {
        self.rooms.get(room)
    }
}

} // verus!
