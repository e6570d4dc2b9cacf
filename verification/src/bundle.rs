//! Room-key bundles: the room keys of one room that may be shared with a
//! newly invited member, and declarations for those that may not.

use crate::import::{
    accepted_sessions, accepts_progress, import_sessions_impl, key_views, lists_session,
    session_views, RoomKeyImport,
};
use crate::room_key::{
    AlgorithmView, EventEncryptionAlgorithm, ExportedRoomKey, ExportedRoomKeyView,
    InboundGroupSession, SessionView,
};
use crate::text::str_eq;
use vstd::prelude::*;

verus! {

/// Why a room key is withheld from a recipient.
#[derive(Clone, Copy, Debug, PartialEq, Eq, Structural)]
pub enum WithheldCode {
    /// The recipient's device is blocked.
    Blacklisted,
    /// The recipient's device is not verified.
    Unverified,
    /// The recipient is not allowed to have the key.
    Unauthorised,
    /// The sender does not have the key.
    Unavailable,
    /// No Olm session could be set up with the recipient's device.
    NoOlm,
}

/// A room key as a bundle carries it.
#[derive(Debug)]
pub struct HistoricRoomKey {
    /// The algorithm of the session.
    pub algorithm: EventEncryptionAlgorithm,
    /// The room in which the session is used.
    pub room_id: String,
    /// The Curve25519 key of the device that created the session, in base64.
    pub sender_key: String,
    /// The id of the session.
    pub session_id: String,
    /// The exported session key, in unpadded base64.
    pub session_key: String,
}

/// The model of [`HistoricRoomKey`].
pub struct HistoricRoomKeyView {
    pub algorithm: AlgorithmView,
    pub room_id: Seq<char>,
    pub sender_key: Seq<char>,
    pub session_id: Seq<char>,
    pub session_key: Seq<char>,
}

impl View for HistoricRoomKey {
    type V = HistoricRoomKeyView;

    open spec fn view(&self) -> HistoricRoomKeyView {
        HistoricRoomKeyView {
            algorithm: self.algorithm@,
            room_id: self.room_id@,
            sender_key: self.sender_key@,
            session_id: self.session_id@,
            session_key: self.session_key@,
        }
    }
}

impl Clone for HistoricRoomKey {
    fn clone(&self) -> (r: Self)
        ensures
            r@ == self@,
    {
        HistoricRoomKey {
            algorithm: self.algorithm.clone(),
            room_id: self.room_id.clone(),
            sender_key: self.sender_key.clone(),
            session_id: self.session_id.clone(),
            session_key: self.session_key.clone(),
        }
    }
}
/// A declaration that a room key is not shared.
#[derive(Debug)]
pub struct RoomKeyWithheldContent {
    /// The algorithm of the session.
    pub algorithm: EventEncryptionAlgorithm,
    /// Why the key is withheld.
    pub code: WithheldCode,
    /// The room in which the session is used.
    pub room_id: String,
    /// The id of the session.
    pub session_id: String,
    /// The Curve25519 key of the device that created the session, in base64.
    pub sender_key: String,
    /// The device that withholds the key.
    pub from_device: String,
}

/// The model of [`RoomKeyWithheldContent`].
pub struct RoomKeyWithheldContentView {
    pub algorithm: AlgorithmView,
    pub code: WithheldCode,
    pub room_id: Seq<char>,
    pub session_id: Seq<char>,
    pub sender_key: Seq<char>,
    pub from_device: Seq<char>,
}

impl View for RoomKeyWithheldContent {
    type V = RoomKeyWithheldContentView;

    open spec fn view(&self) -> RoomKeyWithheldContentView {
        RoomKeyWithheldContentView {
            algorithm: self.algorithm@,
            code: self.code,
            room_id: self.room_id@,
            session_id: self.session_id@,
            sender_key: self.sender_key@,
            from_device: self.from_device@,
        }
    }
}

impl Clone for RoomKeyWithheldContent {
    fn clone(&self) -> (r: Self)
        ensures
            r@ == self@,
    {
        RoomKeyWithheldContent {
            algorithm: self.algorithm.clone(),
            code: self.code,
            room_id: self.room_id.clone(),
            session_id: self.session_id.clone(),
            sender_key: self.sender_key.clone(),
            from_device: self.from_device.clone(),
        }
    }
}
/// The room keys of one room, for sharing the room's history.
pub struct RoomKeyBundle {
    /// The keys that are shared.
    pub room_keys: Vec<HistoricRoomKey>,
    /// Declarations for the keys that are not shared.
    pub withheld: Vec<RoomKeyWithheldContent>,
}

/// The models of a list of bundled room keys.
pub open spec fn historic_views(keys: Seq<HistoricRoomKey>) -> Seq<HistoricRoomKeyView> {
    keys.map_values(|k: HistoricRoomKey| k@)
}

/// The models of a list of declarations.
pub open spec fn withheld_views(items: Seq<RoomKeyWithheldContent>) -> Seq<
    RoomKeyWithheldContentView,
> {
    items.map_values(|w: RoomKeyWithheldContent| w@)
}

/// The bundled form of a session's key.
pub open spec fn historic_key(s: SessionView) -> HistoricRoomKeyView {
    HistoricRoomKeyView {
        algorithm: AlgorithmView::MegolmV1AesSha2,
        room_id: s.room_id,
        sender_key: s.sender_key,
        session_id: s.session_id,
        session_key: s.session_key,
    }
}

/// The declaration that `device` does not share a session's key.
pub open spec fn withheld_for(s: SessionView, device: Seq<char>) -> RoomKeyWithheldContentView {
    RoomKeyWithheldContentView {
        algorithm: AlgorithmView::MegolmV1AesSha2,
        code: WithheldCode::Unauthorised,
        room_id: s.room_id,
        session_id: s.session_id,
        sender_key: s.sender_key,
        from_device: device,
    }
}

/// The keys that a bundle for `room` shares: those of the room's sessions
/// that are flagged for shared history, in the order of the sessions.
pub open spec fn bundle_keys(sessions: Seq<SessionView>, room: Seq<char>) -> Seq<HistoricRoomKeyView>
    decreases sessions.len(),
{
    if sessions.len() == 0 {
        Seq::empty()
    } else {
        let before = bundle_keys(sessions.drop_last(), room);
        let s = sessions.last();
        if s.room_id == room && s.shared_history {
            before.push(historic_key(s))
        } else {
            before
        }
    }
}

/// The declarations of a bundle for `room`: one for each of the room's
/// sessions that is not flagged for shared history, in the order of the
/// sessions.
pub open spec fn bundle_withheld(sessions: Seq<SessionView>, room: Seq<char>, device: Seq<char>) -> Seq<
    RoomKeyWithheldContentView,
>
    decreases sessions.len(),
{
    if sessions.len() == 0 {
        Seq::empty()
    } else {
        let before = bundle_withheld(sessions.drop_last(), room, device);
        let s = sessions.last();
        if s.room_id == room && !s.shared_history {
            before.push(withheld_for(s, device))
        } else {
            before
        }
    }
}

/// How many of `sessions` belong to `room`.
pub open spec fn sessions_of_room(sessions: Seq<SessionView>, room: Seq<char>) -> nat
    decreases sessions.len(),
{
    if sessions.len() == 0 {
        0
    } else {
        sessions_of_room(sessions.drop_last(), room) + if sessions.last().room_id == room {
            1nat
        } else {
            0nat
        }
    }
}

/// A bundle speaks of every session of its room once: as a shared key or as
/// a declaration.
pub proof fn lemma_bundle_partitions_room(sessions: Seq<SessionView>, room: Seq<char>, device: Seq<char>)
    ensures
        bundle_keys(sessions, room).len() + bundle_withheld(sessions, room, device).len()
            == sessions_of_room(sessions, room),
    decreases sessions.len(),
{
    if sessions.len() > 0 {
        lemma_bundle_partitions_room(sessions.drop_last(), room, device);
    }
}

/// Puts together the bundle for `room_id` from the stored sessions. The keys
/// of the room's sessions that are flagged for shared history are shared; for
/// each of the others `device_id` declares that it withholds the key, the
/// recipient not being authorised.
pub fn build_room_key_bundle(
    sessions: &Vec<InboundGroupSession>,
    room_id: &str,
    device_id: &str,
) -> (bundle: RoomKeyBundle)
    ensures
        historic_views(bundle.room_keys@) == bundle_keys(session_views(sessions@), room_id@),
        withheld_views(bundle.withheld@) == bundle_withheld(
            session_views(sessions@),
            room_id@,
            device_id@,
        ),
{
    let mut room_keys: Vec<HistoricRoomKey> = Vec::new();
    let mut withheld: Vec<RoomKeyWithheldContent> = Vec::new();
    let ghost all = session_views(sessions@);
    let mut i: usize = 0;
    proof {
        assert(all.take(0) =~= Seq::<SessionView>::empty());
        assert(historic_views(room_keys@) =~= Seq::<HistoricRoomKeyView>::empty());
        assert(withheld_views(withheld@) =~= Seq::<RoomKeyWithheldContentView>::empty());
    }
    while i < sessions.len()
        invariant
            i <= sessions@.len(),
            all == session_views(sessions@),
            historic_views(room_keys@) == bundle_keys(all.take(i as int), room_id@),
            withheld_views(withheld@) == bundle_withheld(all.take(i as int), room_id@, device_id@),
        decreases sessions@.len() - i,
    {
        let session = &sessions[i];
        proof {
            assert(all.take(i as int + 1).drop_last() =~= all.take(i as int));
            assert(all.take(i as int + 1).last() == session@);
        }
        if str_eq(session.room_id().as_str(), room_id) {
            if session.shared_history() {
                let ghost before = historic_views(room_keys@);
                let key = HistoricRoomKey::from_exported(session.export());
                room_keys.push(key);
                proof {
                    assert(historic_views(room_keys@) =~= before.push(historic_key(session@)));
                }
            } else {
                let ghost before = withheld_views(withheld@);
                withheld.push(
                    RoomKeyWithheldContent {
                        algorithm: session.algorithm(),
                        code: WithheldCode::Unauthorised,
                        room_id: session.room_id().clone(),
                        session_id: session.session_id().clone(),
                        sender_key: session.sender_key().clone(),
                        from_device: device_id.to_owned(),
                    },
                );
                proof {
                    assert(withheld_views(withheld@) =~= before.push(
                        withheld_for(session@, device_id@),
                    ));
                }
            }
        }
        i += 1;
    }
    proof {
        assert(all.take(sessions@.len() as int) =~= all);
    }
    RoomKeyBundle { room_keys, withheld }
}

impl HistoricRoomKey {
    /// The bundled form of an exported room key.
    pub fn from_exported(key: ExportedRoomKey) -> (r: HistoricRoomKey)
        ensures
            r@ == (HistoricRoomKeyView {
                algorithm: key@.algorithm,
                room_id: key@.room_id,
                sender_key: key@.sender_key,
                session_id: key@.session_id,
                session_key: key@.session_key,
            }),
    {
        HistoricRoomKey {
            algorithm: key.algorithm,
            room_id: key.room_id,
            sender_key: key.sender_key,
            session_id: key.session_id,
            session_key: key.session_key,
        }
    }

    /// The key in the form in which it is imported. A key that came in a
    /// bundle is one that was shared as part of a room's history.
    pub fn to_exported(&self) -> (r: ExportedRoomKey)
        ensures
            r@ == importable(self@),
    {
        ExportedRoomKey {
            algorithm: self.algorithm.clone(),
            room_id: self.room_id.clone(),
            sender_key: self.sender_key.clone(),
            session_id: self.session_id.clone(),
            session_key: self.session_key.clone(),
            shared_history: true,
        }
    }
}

/// A bundled key in the form in which it is imported.
pub open spec fn importable(key: HistoricRoomKeyView) -> ExportedRoomKeyView {
    ExportedRoomKeyView {
        algorithm: key.algorithm,
        room_id: key.room_id,
        sender_key: key.sender_key,
        session_id: key.session_id,
        session_key: key.session_key,
        shared_history: true,
    }
}

/// The keys of a bundle that are meant for `room`, in the order of the
/// bundle, in the form in which they are imported.
pub open spec fn keys_for_room(keys: Seq<HistoricRoomKeyView>, room: Seq<char>) -> Seq<
    ExportedRoomKeyView,
>
    decreases keys.len(),
{
    if keys.len() == 0 {
        Seq::empty()
    } else {
        let before = keys_for_room(keys.drop_last(), room);
        if keys.last().room_id == room {
            before.push(importable(keys.last()))
        } else {
            before
        }
    }
}

/// How many keys of a bundle are meant for another room than `room`.
pub open spec fn keys_for_other_rooms(keys: Seq<HistoricRoomKeyView>, room: Seq<char>) -> nat
    decreases keys.len(),
{
    if keys.len() == 0 {
        0
    } else {
        keys_for_other_rooms(keys.drop_last(), room) + if keys.last().room_id == room {
            0nat
        } else {
            1nat
        }
    }
}

/// Every key of a bundle is meant for the room or for another one.
pub proof fn lemma_keys_split(keys: Seq<HistoricRoomKeyView>, room: Seq<char>)
    ensures
        keys_for_room(keys, room).len() + keys_for_other_rooms(keys, room) == keys.len(),
    decreases keys.len(),
{
    if keys.len() > 0 {
        lemma_keys_split(keys.drop_last(), room);
    }
}

/// A bundle whose keys are all meant for other rooms holds no key for the
/// room.
pub proof fn lemma_wrong_room_bundle_has_no_keys(keys: Seq<HistoricRoomKeyView>, room: Seq<char>)
    requires
        forall|i: int| 0 <= i < keys.len() ==> (#[trigger] keys[i]).room_id != room,
    ensures
        keys_for_room(keys, room) == Seq::<ExportedRoomKeyView>::empty(),
    decreases keys.len(),
{
    if keys.len() > 0 {
        assert forall|i: int| 0 <= i < keys.drop_last().len() implies (#[trigger] keys.drop_last()[i]).room_id
            != room by {
            assert(keys.drop_last()[i] == keys[i]);
        }
        lemma_wrong_room_bundle_has_no_keys(keys.drop_last(), room);
        assert(keys.last() == keys[keys.len() - 1]);
    }
}

/// Splits the keys of a bundle into those meant for `room_id`, made ready
/// for import, and the number of those meant for other rooms.
pub fn split_by_room(keys: &Vec<HistoricRoomKey>, room_id: &str) -> (r: (Vec<ExportedRoomKey>, usize))
    ensures
        key_views(r.0@) == keys_for_room(historic_views(keys@), room_id@),
        r.1 == keys_for_other_rooms(historic_views(keys@), room_id@),
{
    let mut good: Vec<ExportedRoomKey> = Vec::new();
    let mut bad: usize = 0;
    let ghost all = historic_views(keys@);
    let mut i: usize = 0;
    proof {
        assert(all.take(0) =~= Seq::<HistoricRoomKeyView>::empty());
        assert(key_views(good@) =~= Seq::<ExportedRoomKeyView>::empty());
    }
    while i < keys.len()
        invariant
            i <= keys@.len(),
            all == historic_views(keys@),
            key_views(good@) == keys_for_room(all.take(i as int), room_id@),
            bad == keys_for_other_rooms(all.take(i as int), room_id@),
            bad <= i,
        decreases keys@.len() - i,
    {
        let key = &keys[i];
        proof {
            assert(all.take(i as int + 1).drop_last() =~= all.take(i as int));
            assert(all.take(i as int + 1).last() == key@);
        }
        if str_eq(key.room_id.as_str(), room_id) {
            let ghost before = key_views(good@);
            good.push(key.to_exported());
            proof {
                assert(key_views(good@) =~= before.push(importable(key@)));
            }
        } else {
            bad = bad + 1;
        }
        i += 1;
    }
    proof {
        assert(all.take(keys@.len() as int) =~= all);
    }
    (good, bad)
}

/// What a bundle that was received holds for a room.
pub enum BundleKeys {
    /// The bundle holds no keys.
    Empty,
    /// All keys of the bundle are meant for other rooms.
    WrongRoom {
        /// How many keys the bundle holds.
        ignored: usize,
    },
    /// The bundle holds keys for the room.
    ForRoom {
        /// How many keys are meant for other rooms and left aside.
        ignored: usize,
        /// The keys for the room, in the order of the bundle, ready for
        /// import.
        keys: Vec<ExportedRoomKey>,
    },
}

/// Looks through the bundle that was received for `room_id`, before anything
/// is read from the store: says whether the bundle is empty, or holds keys
/// for other rooms only, or else which keys are to be imported.
pub fn keys_to_import(room_id: &str, bundle: &RoomKeyBundle) -> (r: BundleKeys)
    ensures
        ({
            let keys = historic_views(bundle.room_keys@);
            let good = keys_for_room(keys, room_id@);
            match r {
                BundleKeys::Empty => keys.len() == 0,
                BundleKeys::WrongRoom { ignored } => keys.len() > 0 && good.len() == 0 && ignored
                    == keys.len(),
                BundleKeys::ForRoom { ignored, keys: found } => good.len() > 0 && key_views(found@)
                    == good && found@.len() == good.len() && ignored == keys_for_other_rooms(
                    keys,
                    room_id@,
                ),
            }
        }),
{
    let (good, bad) = split_by_room(&bundle.room_keys, room_id);
    proof {
        lemma_keys_split(historic_views(bundle.room_keys@), room_id@);
        assert(key_views(good@).len() == good@.len());
    }
    if good.len() == 0 {
        if bad == 0 {
            BundleKeys::Empty
        } else {
            BundleKeys::WrongRoom { ignored: bad }
        }
    } else {
        BundleKeys::ForRoom { ignored: bad, keys: good }
    }
}

/// What became of a bundle that was received.
pub enum ReceivedBundle {
    /// The bundle held no keys. Nothing was imported.
    Empty,
    /// All keys of the bundle were meant for other rooms. Nothing was
    /// imported.
    WrongRoom {
        /// How many keys the bundle held.
        ignored: usize,
    },
    /// The keys meant for the room were imported.
    Imported {
        /// How many keys were meant for other rooms and left aside.
        ignored: usize,
        /// The outcome of importing the others.
        import: RoomKeyImport,
    },
}

/// Takes in the bundle that was received for `room_id`.
///
/// The keys of the bundle that are meant for other rooms are left aside;
/// the others are imported against the stored sessions, as any import is. A
/// bundle without keys for the room imports nothing, and that is no failure.
/// `progress_listener` has to accept the pairs of an index and the number of
/// the keys for the room, and no others.
pub fn receive_room_key_bundle<F: Fn(usize, usize)>(
    stored: &Vec<InboundGroupSession>,
    room_id: &str,
    bundle: &RoomKeyBundle,
    progress_listener: F,
) -> (r: ReceivedBundle)
    requires
        accepts_progress(
            progress_listener,
            keys_for_room(historic_views(bundle.room_keys@), room_id@).len(),
        ),
    ensures
        ({
            let keys = historic_views(bundle.room_keys@);
            let good = keys_for_room(keys, room_id@);
            match r {
                ReceivedBundle::Empty => keys.len() == 0,
                ReceivedBundle::WrongRoom { ignored } => keys.len() > 0 && good.len() == 0
                    && ignored == keys.len(),
                ReceivedBundle::Imported { ignored, import } => {
                    &&& good.len() > 0
                    &&& ignored == keys_for_other_rooms(keys, room_id@)
                    &&& session_views(import.sessions@) == accepted_sessions(
                        session_views(stored@),
                        good,
                        false,
                    )
                    &&& import.result.imported_count == import.sessions@.len()
                    &&& import.result.total_count == good.len()
                    &&& import.result.keys.wf()
                    &&& forall|room: Seq<char>, sender: Seq<char>, id: Seq<char>| #[trigger]
                        import.result.keys.contains(room, sender, id) <==> lists_session(
                            session_views(import.sessions@),
                            room,
                            sender,
                            id,
                        )
                },
            }
        }),
{
    match keys_to_import(room_id, bundle) {
        BundleKeys::Empty => ReceivedBundle::Empty,
        BundleKeys::WrongRoom { ignored } => ReceivedBundle::WrongRoom { ignored },
        BundleKeys::ForRoom { ignored, keys } => {
            let import = import_sessions_impl(stored, &keys, None, progress_listener);
            ReceivedBundle::Imported { ignored, import }
        },
    }
}

} // verus!
