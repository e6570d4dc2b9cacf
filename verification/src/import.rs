//! The room-key import engine.
//!
//! An import walks the offered keys in order. A key is taken when it turns
//! into a session and the store holds no session of that room and id, or
//! holds one that the new session is strictly better than. The store is
//! consulted as it stood before the import; what was taken is saved in one
//! batch afterwards.

use crate::room_key::{
    room_key_info, session_from_export, session_ordering, ExportedRoomKey, ExportedRoomKeyView,
    InboundGroupSession, RoomKeyInfo, RoomKeyInfoView, SessionOrdering, SessionView,
};
use crate::room_key_index::RoomKeyIndex;
use crate::text::str_eq;
use vstd::prelude::*;

verus! {

/// The models of a list of sessions.
pub open spec fn session_views(sessions: Seq<InboundGroupSession>) -> Seq<SessionView> {
    sessions.map_values(|s: InboundGroupSession| s@)
}

/// The models of a list of exported room keys.
pub open spec fn key_views(keys: Seq<ExportedRoomKey>) -> Seq<ExportedRoomKeyView> {
    keys.map_values(|k: ExportedRoomKey| k@)
}

/// The place of the first stored session of the given room and id, or the
/// number of stored sessions where there is none.
pub open spec fn session_position(stored: Seq<SessionView>, room: Seq<char>, id: Seq<char>) -> int
    decreases stored.len(),
{
    if stored.len() == 0 {
        0
    } else if stored[0].room_id == room && stored[0].session_id == id {
        0
    } else {
        1 + session_position(stored.drop_first(), room, id)
    }
}

/// The first stored session of the given room and id.
pub open spec fn find_session(stored: Seq<SessionView>, room: Seq<char>, id: Seq<char>) -> Option<
    SessionView,
> {
    let p = session_position(stored, room, id);
    if p < stored.len() {
        Some(stored[p])
    } else {
        None
    }
}

/// The position is that of the first session of the room and id.
pub proof fn lemma_session_position(stored: Seq<SessionView>, room: Seq<char>, id: Seq<char>)
    ensures
        0 <= session_position(stored, room, id) <= stored.len(),
        forall|i: int|
            0 <= i < session_position(stored, room, id) ==> !((#[trigger] stored[i]).room_id == room
                && stored[i].session_id == id),
        session_position(stored, room, id) < stored.len() ==> stored[session_position(
            stored,
            room,
            id,
        )].room_id == room && stored[session_position(stored, room, id)].session_id == id,
    decreases stored.len(),
{
    if stored.len() > 0 && !(stored[0].room_id == room && stored[0].session_id == id) {
        let rest = stored.drop_first();
        lemma_session_position(rest, room, id);
        let p = session_position(rest, room, id);
        assert forall|i: int| 0 <= i < 1 + p implies !((#[trigger] stored[i]).room_id == room
            && stored[i].session_id == id) by {
            if i > 0 {
                assert(stored[i] == rest[i - 1]);
            }
        }
        if p < rest.len() {
            assert(stored[1 + p] == rest[p]);
        }
    }
}

/// A place is the position of a room and id where the session there is the
/// first of them.
pub proof fn lemma_session_position_is(
    stored: Seq<SessionView>,
    room: Seq<char>,
    id: Seq<char>,
    p: int,
)
    requires
        0 <= p <= stored.len(),
        forall|i: int|
            0 <= i < p ==> !((#[trigger] stored[i]).room_id == room && stored[i].session_id == id),
        p < stored.len() ==> stored[p].room_id == room && stored[p].session_id == id,
    ensures
        session_position(stored, room, id) == p,
{
    lemma_session_position(stored, room, id);
    let q = session_position(stored, room, id);
    if q < p {
        assert(!(stored[q].room_id == room && stored[q].session_id == id));
    }
}

/// Whether a new session replaces what the store holds in its place.
pub open spec fn is_better(session: SessionView, existing: Option<SessionView>) -> bool {
    match existing {
        None => true,
        Some(old) => session_ordering(session, old) == SessionOrdering::Better,
    }
}

/// The session that a key is imported as, or `None` where the key is skipped.
pub open spec fn accepted_session(
    stored: Seq<SessionView>,
    key: ExportedRoomKeyView,
    from_backup: bool,
) -> Option<SessionView> {
    match session_from_export(key) {
        None => None,
        Some(s) => if is_better(s, find_session(stored, s.room_id, s.session_id)) {
            Some(SessionView { backed_up: from_backup, ..s })
        } else {
            None
        },
    }
}

/// The sessions that an import of `keys` takes, in the order of the keys.
pub open spec fn accepted_sessions(
    stored: Seq<SessionView>,
    keys: Seq<ExportedRoomKeyView>,
    from_backup: bool,
) -> Seq<SessionView>
    decreases keys.len(),
{
    if keys.len() == 0 {
        Seq::empty()
    } else {
        let before = accepted_sessions(stored, keys.drop_last(), from_backup);
        match accepted_session(stored, keys.last(), from_backup) {
            Some(s) => before.push(s),
            None => before,
        }
    }
}

/// Whether one of `sessions` is session `id` of `sender` in `room`.
pub open spec fn lists_session(
    sessions: Seq<SessionView>,
    room: Seq<char>,
    sender: Seq<char>,
    id: Seq<char>,
) -> bool {
    exists|i: int|
        0 <= i < sessions.len() && (#[trigger] sessions[i]).room_id == room && sessions[i].sender_key
            == sender && sessions[i].session_id == id
}

/// Whether a progress listener can be called with every pair that an import
/// of `total` keys passes to it: an index below `total`, and `total`.
pub open spec fn accepts_progress<F: Fn(usize, usize)>(listener: F, total: nat) -> bool {
    forall|i: usize, n: usize| i < n && n == total ==> #[trigger] accepts_step(listener, i, n)
}

/// Whether a progress listener can be called with one pair.
pub open spec fn accepts_step<F: Fn(usize, usize)>(listener: F, i: usize, total: usize) -> bool {
    listener.requires((i, total))
}

/// What an import reports.
pub struct RoomKeyImportResult {
    /// How many of the offered keys were imported.
    pub imported_count: usize,
    /// How many keys were offered.
    pub total_count: usize,
    /// The imported keys, by room and sender key.
    pub keys: RoomKeyIndex,
}

/// The outcome of an import: the report, and the sessions to save.
pub struct RoomKeyImport {
    /// What the import reports to its caller.
    pub result: RoomKeyImportResult,
    /// The sessions to save, in one batch, in the order of their keys.
    pub sessions: Vec<InboundGroupSession>,
}

/// Looks up the stored session of the given room and id.
pub fn get_inbound_group_session<'a>(
    stored: &'a Vec<InboundGroupSession>,
    room_id: &str,
    session_id: &str,
) -> (r: Option<&'a InboundGroupSession>)
    ensures
        match r {
            Some(s) => find_session(session_views(stored@), room_id@, session_id@) == Some(s@),
            None => find_session(session_views(stored@), room_id@, session_id@) is None,
        },
{
    let ghost all = session_views(stored@);
    let mut i: usize = 0;
    while i < stored.len()
        invariant
            i <= stored@.len(),
            all == session_views(stored@),
            forall|j: int|
                0 <= j < i ==> !((#[trigger] all[j]).room_id == room_id@ && all[j].session_id
                    == session_id@),
        decreases stored@.len() - i,
    {
        let s = &stored[i];
        if str_eq(s.room_id().as_str(), room_id) && str_eq(s.session_id().as_str(), session_id) {
            proof {
                lemma_session_position_is(all, room_id@, session_id@, i as int);
            }
            return Some(s);
        }
        i += 1;
    }
    proof {
        lemma_session_position_is(all, room_id@, session_id@, all.len() as int);
    }
    None
}

/// Whether `session` replaces `old_session`: it does where there is no old
/// session, and where it is strictly better than the old one.
pub fn new_session_better(session: &InboundGroupSession, old_session: Option<&InboundGroupSession>) -> (r:
    bool)
    ensures
        r == is_better(
            session@,
            match old_session {
                Some(o) => Some(o@),
                None => None,
            },
        ),
{
    match old_session {
        None => true,
        Some(old) => session.compare(old) == SessionOrdering::Better,
    }
}

/// A key that does not turn into a session is skipped, and so is one that is
/// not better than what the store holds.
pub proof fn lemma_accepted_sessions_step(
    stored: Seq<SessionView>,
    keys: Seq<ExportedRoomKeyView>,
    i: int,
    from_backup: bool,
)
    requires
        0 <= i < keys.len(),
    ensures
        accepted_sessions(stored, keys.take(i + 1), from_backup) == match accepted_session(
            stored,
            keys[i],
            from_backup,
        ) {
            Some(s) => accepted_sessions(stored, keys.take(i), from_backup).push(s),
            None => accepted_sessions(stored, keys.take(i), from_backup),
        },
{
    assert(keys.take(i + 1).drop_last() =~= keys.take(i));
    assert(keys.take(i + 1).last() == keys[i]);
}

/// Imports `room_keys` against the sessions that the store holds.
///
/// `progress_listener` is called once per key, in the order of the keys,
/// with the key's index and the number of keys, whether or not the key was
/// taken; it has to accept these pairs and no others.
/// `from_backup_version` being set marks what is taken as backed up.
pub fn import_sessions_impl<F: Fn(usize, usize)>(
    stored: &Vec<InboundGroupSession>,
    room_keys: &Vec<ExportedRoomKey>,
    from_backup_version: Option<&str>,
    progress_listener: F,
) -> (r: RoomKeyImport)
    requires
        accepts_progress(progress_listener, room_keys@.len()),
    ensures
        session_views(r.sessions@) == accepted_sessions(
            session_views(stored@),
            key_views(room_keys@),
            from_backup_version is Some,
        ),
        r.result.imported_count == r.sessions@.len(),
        r.result.total_count == room_keys@.len(),
        r.result.keys.wf(),
        forall|room: Seq<char>, sender: Seq<char>, id: Seq<char>| #[trigger]
            r.result.keys.contains(room, sender, id) <==> lists_session(
                session_views(r.sessions@),
                room,
                sender,
                id,
            ),
{
    let mut sessions: Vec<InboundGroupSession> = Vec::new();
    let total_count = room_keys.len();
    let mut keys = RoomKeyIndex::new();
    let from_backup = from_backup_version.is_some();
    let ghost held = session_views(stored@);
    let ghost offered = key_views(room_keys@);
    let mut i: usize = 0;
    proof {
        assert(session_views(sessions@) =~= Seq::<SessionView>::empty());
        assert(offered.take(0) =~= Seq::<ExportedRoomKeyView>::empty());
    }
    while i < total_count
        invariant
            i <= total_count,
            total_count == room_keys@.len(),
            held == session_views(stored@),
            offered == key_views(room_keys@),
            from_backup == (from_backup_version is Some),
            accepts_progress(progress_listener, total_count as nat),
            session_views(sessions@) == accepted_sessions(held, offered.take(i as int), from_backup),
            sessions@.len() <= i,
            keys.wf(),
            forall|room: Seq<char>, sender: Seq<char>, id: Seq<char>| #[trigger]
                keys.contains(room, sender, id) <==> lists_session(
                    session_views(sessions@),
                    room,
                    sender,
                    id,
                ),
        decreases total_count - i,
    {
        let key = &room_keys[i];
        let ghost taken = session_views(sessions@);
        proof {
            lemma_accepted_sessions_step(held, offered, i as int, from_backup);
            assert(offered[i as int] == key@);
        }
        match InboundGroupSession::from_export(key) {
            Ok(session) => {
                let old_session = get_inbound_group_session(
                    stored,
                    session.room_id().as_str(),
                    session.session_id().as_str(),
                );
                if new_session_better(&session, old_session) {
                    let mut session = session;
                    if from_backup {
                        session.mark_as_backed_up();
                    }
                    keys.insert(
                        session.room_id().as_str(),
                        session.sender_key().as_str(),
                        session.session_id().as_str(),
                    );
                    let ghost added = session@;
                    sessions.push(session);
                    proof {
                        let now = session_views(sessions@);
                        assert(now =~= taken.push(added));
                        assert forall|room: Seq<char>, sender: Seq<char>, id: Seq<char>|
                            lists_session(now, room, sender, id) <==> lists_session(
                                taken,
                                room,
                                sender,
                                id,
                            ) || (room == added.room_id && sender == added.sender_key && id
                                == added.session_id) by {
                            if lists_session(taken, room, sender, id) {
                                let j = choose|j: int|
                                    0 <= j < taken.len() && (#[trigger] taken[j]).room_id == room
                                        && taken[j].sender_key == sender && taken[j].session_id
                                        == id;
                                assert(now[j] == taken[j]);
                            }
                            if room == added.room_id && sender == added.sender_key && id
                                == added.session_id {
                                assert(now[now.len() - 1] == added);
                            }
                            if lists_session(now, room, sender, id) {
                                let j = choose|j: int|
                                    0 <= j < now.len() && (#[trigger] now[j]).room_id == room
                                        && now[j].sender_key == sender && now[j].session_id == id;
                                if j < taken.len() {
                                    assert(taken[j] == now[j]);
                                }
                            }
                        }
                    }
                }
            },
            Err(_) => {},
        }
        assert(accepts_step(progress_listener, i, total_count));
        progress_listener(i, total_count);
        i += 1;
    }
    proof {
        assert(offered.take(total_count as int) =~= offered);
    }
    let imported_count = sessions.len();
    RoomKeyImport {
        result: RoomKeyImportResult { imported_count, total_count, keys },
        sessions,
    }
}

/// The stored sessions after `session` is saved: it takes the place of the
/// stored session of its room and id, or joins the others where there is none.
pub open spec fn store_session(stored: Seq<SessionView>, session: SessionView) -> Seq<SessionView> {
    let p = session_position(stored, session.room_id, session.session_id);
    if p < stored.len() {
        stored.update(p, session)
    } else {
        stored.push(session)
    }
}

/// The stored sessions after a batch is saved, one session after the other.
pub open spec fn store_sessions(stored: Seq<SessionView>, batch: Seq<SessionView>) -> Seq<
    SessionView,
>
    decreases batch.len(),
{
    if batch.len() == 0 {
        stored
    } else {
        store_session(store_sessions(stored, batch.drop_last()), batch.last())
    }
}

/// Whether no two stored sessions have one room and id.
pub open spec fn keyed_once(stored: Seq<SessionView>) -> bool {
    forall|i: int, j: int|
        0 <= i < j < stored.len() ==> !((#[trigger] stored[i]).room_id == (#[trigger] stored[j]).room_id
            && stored[i].session_id == stored[j].session_id)
}

/// Saving a session leaves one stored session per room and id, and makes the
/// saved one the session that a lookup of its room and id finds; lookups of
/// other rooms and ids find what they found before.
pub proof fn lemma_store_session(stored: Seq<SessionView>, session: SessionView)
    requires
        keyed_once(stored),
    ensures
        keyed_once(store_session(stored, session)),
        find_session(store_session(stored, session), session.room_id, session.session_id) == Some(
            session,
        ),
        forall|room: Seq<char>, id: Seq<char>|
            !(room == session.room_id && id == session.session_id) ==> #[trigger] find_session(
                store_session(stored, session),
                room,
                id,
            ) == find_session(stored, room, id),
{
    let after = store_session(stored, session);
    let p = session_position(stored, session.room_id, session.session_id);
    lemma_session_position(stored, session.room_id, session.session_id);
    lemma_session_position_is(after, session.room_id, session.session_id, p);
    assert forall|i: int, j: int| 0 <= i < j < after.len() implies !((#[trigger] after[i]).room_id
        == (#[trigger] after[j]).room_id && after[i].session_id == after[j].session_id) by {
        if i != p && j != p {
            assert(after[i] == stored[i]);
            assert(after[j] == stored[j]);
        } else if p < stored.len() {
            let other = if i == p { j } else { i };
            assert(after[other] == stored[other]);
            if other < p {
                assert(!(stored[other].room_id == session.room_id && stored[other].session_id
                    == session.session_id));
            } else {
                assert(stored[p].room_id == session.room_id);
            }
        } else {
            assert(after[i] == stored[i]);
        }
    }
    assert forall|room: Seq<char>, id: Seq<char>|
        !(room == session.room_id && id == session.session_id) implies #[trigger] find_session(
        after,
        room,
        id,
    ) == find_session(stored, room, id) by {
        lemma_session_position(stored, room, id);
        let q = session_position(stored, room, id);
        assert forall|i: int| 0 <= i < q implies !((#[trigger] after[i]).room_id == room
            && after[i].session_id == id) by {
            if i != p {
                assert(after[i] == stored[i]);
            }
        }
        if q < stored.len() {
            assert(q != p);
            assert(after[q] == stored[q]);
        } else if p >= stored.len() {
            assert(after[q] == session);
            lemma_session_position(after, room, id);
            let z = session_position(after, room, id);
            if z < after.len() {
                if z < q {
                    assert(!(after[z].room_id == room && after[z].session_id == id));
                }
            }
            assert(z == after.len());
        }
        if q < stored.len() || p < stored.len() {
            lemma_session_position_is(after, room, id, q);
        }
    }
}

/// Saves a batch of sessions into the stored ones: each takes the place of
/// the stored session of its room and id, or is added where there is none.
pub fn save_inbound_group_sessions(
    stored: &mut Vec<InboundGroupSession>,
    sessions: &Vec<InboundGroupSession>,
)
    ensures
        session_views(final(stored)@) == store_sessions(
            session_views(old(stored)@),
            session_views(sessions@),
        ),
{
    let ghost before = session_views(stored@);
    let ghost batch = session_views(sessions@);
    let mut i: usize = 0;
    proof {
        assert(batch.take(0) =~= Seq::<SessionView>::empty());
    }
    while i < sessions.len()
        invariant
            i <= sessions@.len(),
            batch == session_views(sessions@),
            session_views(stored@) == store_sessions(before, batch.take(i as int)),
        decreases sessions@.len() - i,
    {
        let session = sessions[i].clone();
        let ghost held = session_views(stored@);
        proof {
            assert(batch.take(i as int + 1).drop_last() =~= batch.take(i as int));
            assert(batch.take(i as int + 1).last() == session@);
        }
        let mut p: usize = 0;
        while p < stored.len() && !(str_eq(stored[p].room_id().as_str(), session.room_id().as_str())
            && str_eq(stored[p].session_id().as_str(), session.session_id().as_str()))
            invariant
                p <= stored@.len(),
                held == session_views(stored@),
                forall|j: int|
                    0 <= j < p ==> !((#[trigger] held[j]).room_id == session@.room_id
                        && held[j].session_id == session@.session_id),
            decreases stored@.len() - p,
        {
            p += 1;
        }
        proof {
            lemma_session_position_is(held, session@.room_id, session@.session_id, p as int);
        }
        if p < stored.len() {
            stored[p] = session;
            proof {
                assert(session_views(stored@) =~= held.update(p as int, session@));
            }
        } else {
            stored.push(session);
            proof {
                assert(session_views(stored@) =~= held.push(session@));
            }
        }
        i += 1;
    }
    proof {
        assert(batch.take(sessions@.len() as int) =~= batch);
    }
}

/// What an import of the single key `key` takes.
pub proof fn lemma_accepted_one(stored: Seq<SessionView>, key: ExportedRoomKeyView, from_backup: bool)
    ensures
        accepted_sessions(stored, seq![key], from_backup) == match accepted_session(
            stored,
            key,
            from_backup,
        ) {
            Some(s) => seq![s],
            None => Seq::<SessionView>::empty(),
        },
{
    let keys = seq![key];
    assert(keys.drop_last() =~= Seq::<ExportedRoomKeyView>::empty());
    assert(keys.last() == key);
    assert(accepted_sessions(stored, keys.drop_last(), from_backup) =~= Seq::<SessionView>::empty());
    match accepted_session(stored, key, from_backup) {
        Some(s) => {
            assert(Seq::<SessionView>::empty().push(s) =~= seq![s]);
        },
        None => {},
    }
}

/// Saving a batch of one session is saving that session.
pub proof fn lemma_store_one(stored: Seq<SessionView>, session: SessionView)
    ensures
        store_sessions(stored, seq![session]) == store_session(stored, session),
        store_sessions(stored, Seq::<SessionView>::empty()) == stored,
{
    let batch = seq![session];
    assert(batch.drop_last() =~= Seq::<SessionView>::empty());
    assert(batch.last() == session);
    assert(store_sessions(stored, batch.drop_last()) == stored);
}

/// Importing a key a second time takes nothing.
///
/// For every store that holds at most one session per room and id, and every
/// key that turns into a session: after the key was imported once and what
/// was taken was saved, the store holds exactly one session of that room and
/// id, and a second import of the key takes no session.
pub proof fn lemma_second_import_takes_nothing(
    stored: Seq<SessionView>,
    key: ExportedRoomKeyView,
    first_from_backup: bool,
    second_from_backup: bool,
)
    requires
        keyed_once(stored),
        session_from_export(key) is Some,
    ensures
        ({
            let session = session_from_export(key).unwrap();
            let after = store_sessions(
                stored,
                accepted_sessions(stored, seq![key], first_from_backup),
            );
            &&& keyed_once(after)
            &&& find_session(after, session.room_id, session.session_id) is Some
            &&& accepted_sessions(after, seq![key], second_from_backup) == Seq::<SessionView>::empty()
        }),
{
    let session = session_from_export(key).unwrap();
    lemma_accepted_one(stored, key, first_from_backup);
    let taken = accepted_sessions(stored, seq![key], first_from_backup);
    let after = store_sessions(stored, taken);
    match accepted_session(stored, key, first_from_backup) {
        Some(s) => {
            lemma_store_one(stored, s);
            lemma_store_session(stored, s);
        },
        None => {
            lemma_store_one(stored, session);
        },
    }
    lemma_accepted_one(after, key, second_from_backup);
}

/// An import never replaces a stored session by one that is not better.
///
/// Where the store holds a session of the room and id of the session that a
/// key turns into, the key is taken exactly if the new session is strictly
/// better than the stored one. Where it is not taken, saving what the import
/// took leaves the stored sessions as they were; where it is taken, the new
/// session is what a lookup finds afterwards.
pub proof fn lemma_only_better_replaces(
    stored: Seq<SessionView>,
    key: ExportedRoomKeyView,
    from_backup: bool,
)
    requires
        keyed_once(stored),
        session_from_export(key) is Some,
        find_session(
            stored,
            session_from_export(key).unwrap().room_id,
            session_from_export(key).unwrap().session_id,
        ) is Some,
    ensures
        ({
            let new = session_from_export(key).unwrap();
            let old = find_session(stored, new.room_id, new.session_id).unwrap();
            let after = store_sessions(stored, accepted_sessions(stored, seq![key], from_backup));
            if session_ordering(new, old) == SessionOrdering::Better {
                find_session(after, new.room_id, new.session_id) == Some(
                    SessionView { backed_up: from_backup, ..new },
                )
            } else {
                after == stored
            }
        }),
{
    let new = session_from_export(key).unwrap();
    lemma_accepted_one(stored, key, from_backup);
    let marked = SessionView { backed_up: from_backup, ..new };
    lemma_store_one(stored, marked);
    lemma_store_session(stored, marked);
}

/// The models of a list of notices.
pub open spec fn info_views(infos: Seq<RoomKeyInfo>) -> Seq<RoomKeyInfoView> {
    infos.map_values(|i: RoomKeyInfo| i@)
}

/// The batch that subscribers to received room keys are sent after
/// `sessions` were saved: one notice per session, in their order. Nothing is
/// sent where nothing was saved.
pub fn room_key_updates(sessions: &Vec<InboundGroupSession>) -> (r: Option<Vec<RoomKeyInfo>>)
    ensures
        match r {
            Some(batch) => sessions@.len() > 0 && info_views(batch@) == session_views(
                sessions@,
            ).map_values(|s: SessionView| room_key_info(s)),
            None => sessions@.len() == 0,
        },
{
    if sessions.len() == 0 {
        return None;
    }
    let mut batch: Vec<RoomKeyInfo> = Vec::new();
    let mut i: usize = 0;
    while i < sessions.len()
        invariant
            i <= sessions@.len(),
            batch@.len() == i,
            forall|j: int| 0 <= j < i ==> (#[trigger] batch@[j])@ == room_key_info(sessions@[j]@),
        decreases sessions@.len() - i,
    {
        batch.push(sessions[i].info());
        i += 1;
    }
    proof {
        assert(info_views(batch@) =~= session_views(sessions@).map_values(
            |s: SessionView| room_key_info(s),
        ));
    }
    Some(batch)
}

} // verus!
