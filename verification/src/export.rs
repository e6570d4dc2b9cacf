//! Export of room keys: the stored sessions that a predicate selects, as a
//! batch or one by one. The predicate is asked before anything is exported,
//! so that no work is spent on a session that is left out.

use crate::import::{key_views, session_views};
use crate::room_key::{exported_key, ExportedRoomKey, ExportedRoomKeyView, InboundGroupSession, SessionView};
use vstd::prelude::*;

verus! {

/// The sessions that were picked, in their order.
pub open spec fn selected(sessions: Seq<SessionView>, picked: Seq<bool>) -> Seq<SessionView>
    recommends
        sessions.len() == picked.len(),
    decreases sessions.len(),
{
    if sessions.len() == 0 || picked.len() == 0 {
        Seq::empty()
    } else {
        let before = selected(sessions.drop_last(), picked.drop_last());
        if picked.last() {
            before.push(sessions.last())
        } else {
            before
        }
    }
}

/// The exported keys of a list of sessions.
pub open spec fn exports(sessions: Seq<SessionView>) -> Seq<ExportedRoomKeyView> {
    sessions.map_values(|s: SessionView| exported_key(s))
}

/// Whether `picked` holds what `predicate` answered for each of `sessions`.
pub open spec fn answers<P: Fn(&InboundGroupSession) -> bool>(
    predicate: P,
    sessions: Seq<InboundGroupSession>,
    picked: Seq<bool>,
) -> bool {
    &&& picked.len() == sessions.len()
    &&& forall|i: int|
        0 <= i < sessions.len() ==> predicate.ensures((&#[trigger] sessions[i], ), picked[i])
}

/// The stored sessions that `predicate` selects, in their order.
fn select_sessions<P: Fn(&InboundGroupSession) -> bool>(
    sessions: &Vec<InboundGroupSession>,
    predicate: P,
) -> (r: Vec<InboundGroupSession>)
    requires
        forall|s: &InboundGroupSession| predicate.requires((s, )),
    ensures
        exists|picked: Seq<bool>|
            answers(predicate, sessions@, picked) && session_views(r@) == selected(
                session_views(sessions@),
                picked,
            ),
{
    let mut chosen: Vec<InboundGroupSession> = Vec::new();
    let ghost all = session_views(sessions@);
    let ghost mut picked: Seq<bool> = Seq::empty();
    let mut i: usize = 0;
    proof {
        assert(all.take(0) =~= Seq::<SessionView>::empty());
        assert(session_views(chosen@) =~= Seq::<SessionView>::empty());
    }
    while i < sessions.len()
        invariant
            i <= sessions@.len(),
            all == session_views(sessions@),
            forall|s: &InboundGroupSession| predicate.requires((s, )),
            picked.len() == i,
            forall|j: int| 0 <= j < i ==> predicate.ensures((&#[trigger] sessions@[j], ), picked[j]),
            session_views(chosen@) == selected(all.take(i as int), picked),
        decreases sessions@.len() - i,
    {
        let session = &sessions[i];
        let keep = predicate(session);
        let ghost before = session_views(chosen@);
        let ghost earlier = picked;
        proof {
            picked = picked.push(keep);
            assert(all.take(i as int + 1).drop_last() =~= all.take(i as int));
            assert(all.take(i as int + 1).last() == session@);
            assert(picked.drop_last() =~= earlier);
        }
        if keep {
            chosen.push(session.clone());
            proof {
                assert(session_views(chosen@) =~= before.push(session@));
            }
        }
        i += 1;
    }
    proof {
        assert(all.take(sessions@.len() as int) =~= all);
        assert(answers(predicate, sessions@, picked));
    }
    chosen
}

/// Exports the stored sessions that `predicate` selects, in their order.
pub fn export_room_keys<P: Fn(&InboundGroupSession) -> bool>(
    sessions: &Vec<InboundGroupSession>,
    predicate: P,
) -> (r: Vec<ExportedRoomKey>)
    requires
        forall|s: &InboundGroupSession| predicate.requires((s, )),
    ensures
        exists|picked: Seq<bool>|
            answers(predicate, sessions@, picked) && key_views(r@) == exports(
                selected(session_views(sessions@), picked),
            ),
{
    let chosen = select_sessions(sessions, predicate);
    let ghost picked = choose|picked: Seq<bool>|
        answers(predicate, sessions@, picked) && session_views(chosen@) == selected(
            session_views(sessions@),
            picked,
        );
    let mut exported: Vec<ExportedRoomKey> = Vec::new();
    let mut i: usize = 0;
    proof {
        assert(key_views(exported@) =~= exports(session_views(chosen@).take(0)));
    }
    while i < chosen.len()
        invariant
            i <= chosen@.len(),
            key_views(exported@) == exports(session_views(chosen@).take(i as int)),
        decreases chosen@.len() - i,
    {
        let ghost before = key_views(exported@);
        exported.push(chosen[i].export());
        proof {
            assert(key_views(exported@) =~= before.push(exported_key(chosen@[i as int]@)));
            assert(exports(session_views(chosen@).take(i as int + 1)) =~= before.push(
                exported_key(chosen@[i as int]@),
            ));
        }
        i += 1;
    }
    proof {
        assert(session_views(chosen@).take(chosen@.len() as int) =~= session_views(chosen@));
    }
    exported
}

/// The selected sessions of an export, handed out one key at a time.
pub struct RoomKeyStream {
    sessions: Vec<InboundGroupSession>,
    position: usize,
}

impl RoomKeyStream {
    /// The invariant: the position is within the sessions.
    pub closed spec fn wf(&self) -> bool {
        self.position <= self.sessions@.len()
    }

    /// The sessions whose keys are still to come.
    pub closed spec fn remaining(&self) -> Seq<SessionView> {
        session_views(self.sessions@).skip(self.position as int)
    }

    /// Exports the next session, if one is left.
    pub fn next(&mut self) -> (r: Option<ExportedRoomKey>)
        requires
            old(self).wf(),
        ensures
            final(self).wf(),
            match r {
                Some(key) => old(self).remaining().len() > 0 && key@ == exported_key(
                    old(self).remaining()[0],
                ) && final(self).remaining() == old(self).remaining().drop_first(),
                None => old(self).remaining().len() == 0 && final(self).remaining()
                    == old(self).remaining(),
            },
    {
        if self.position < self.sessions.len() {
            let key = self.sessions[self.position].export();
            self.position = self.position + 1;
            proof {
                assert(self.remaining() =~= old(self).remaining().drop_first());
            }
            Some(key)
        } else {
            None
        }
    }
}

/// Selects the stored sessions that `predicate` picks, for export one by
/// one. Every session is put to the predicate here; a key is exported only
/// when it is asked for.
pub fn export_room_keys_stream<P: Fn(&InboundGroupSession) -> bool>(
    sessions: &Vec<InboundGroupSession>,
    predicate: P,
) -> (r: RoomKeyStream)
    requires
        forall|s: &InboundGroupSession| predicate.requires((s, )),
    ensures
        r.wf(),
        exists|picked: Seq<bool>|
            answers(predicate, sessions@, picked) && r.remaining() == selected(
                session_views(sessions@),
                picked,
            ),
{
    let chosen = select_sessions(sessions, predicate);
    let r = RoomKeyStream { sessions: chosen, position: 0 };
    proof {
        assert(r.remaining() =~= session_views(chosen@));
    }
    r
}

} // verus!
