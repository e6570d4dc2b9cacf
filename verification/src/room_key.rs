//! Room keys: inbound group sessions and the keys they are exported as.

use crate::megolm::{
    compare_session_keys, import_session_key, imported_session_key, session_key_ordering,
};
use vstd::prelude::*;

verus! {

/// How one version of a session relates to another.
#[derive(Clone, Copy, Debug, PartialEq, Eq, Structural)]
pub enum SessionOrdering {
    /// Both are the same version.
    Equal,
    /// The first can decrypt from an earlier message on than the second.
    Better,
    /// The first can decrypt only from a later message on than the second.
    Worse,
    /// The two are not versions of one session.
    Unconnected,
}

/// The encryption algorithm that a room key belongs to.
#[derive(Debug)]
pub enum EventEncryptionAlgorithm {
    /// Olm, version 1, with Curve25519, AES-256 and SHA-256.
    OlmV1Curve25519AesSha2,
    /// Megolm, version 1, with AES-256 and SHA-256.
    MegolmV1AesSha2,
    /// Any other algorithm, by its name.
    Unknown(String),
}

/// The model of an [`EventEncryptionAlgorithm`].
pub enum AlgorithmView {
    OlmV1Curve25519AesSha2,
    MegolmV1AesSha2,
    Unknown(Seq<char>),
}

impl View for EventEncryptionAlgorithm {
    type V = AlgorithmView;

    open spec fn view(&self) -> AlgorithmView {
        match self {
            EventEncryptionAlgorithm::OlmV1Curve25519AesSha2 => AlgorithmView::OlmV1Curve25519AesSha2,
            EventEncryptionAlgorithm::MegolmV1AesSha2 => AlgorithmView::MegolmV1AesSha2,
            EventEncryptionAlgorithm::Unknown(name) => AlgorithmView::Unknown(name@),
        }
    }
}

impl Clone for EventEncryptionAlgorithm {
    fn clone(&self) -> (r: Self)
        ensures
            r@ == self@,
    {
        match self {
            EventEncryptionAlgorithm::OlmV1Curve25519AesSha2 => EventEncryptionAlgorithm::OlmV1Curve25519AesSha2,
            EventEncryptionAlgorithm::MegolmV1AesSha2 => EventEncryptionAlgorithm::MegolmV1AesSha2,
            EventEncryptionAlgorithm::Unknown(name) => EventEncryptionAlgorithm::Unknown(name.clone()),
        }
    }
}

impl EventEncryptionAlgorithm {
    /// Whether this is Megolm version 1, the one algorithm whose room keys
    /// can be turned into sessions.
    pub fn is_megolm_v1(&self) -> (r: bool)
        ensures
            r == (self@ == AlgorithmView::MegolmV1AesSha2),
    {
        match self {
            EventEncryptionAlgorithm::MegolmV1AesSha2 => true,
            _ => false,
        }
    }
}

/// A room key in the form in which it is exported and imported.
#[derive(Debug)]
pub struct ExportedRoomKey {
    /// The algorithm of the session.
    pub algorithm: EventEncryptionAlgorithm,
    /// The room in which the session is used.
    pub room_id: String,
    /// The Curve25519 key of the device that created the session, in base64.
    pub sender_key: String,
    /// The id that the exporter gives for the session.
    pub session_id: String,
    /// The exported session key, in unpadded base64.
    pub session_key: String,
    /// Whether the key may be shared with newly invited members.
    pub shared_history: bool,
}

/// The model of an [`ExportedRoomKey`].
pub struct ExportedRoomKeyView {
    pub algorithm: AlgorithmView,
    pub room_id: Seq<char>,
    pub sender_key: Seq<char>,
    pub session_id: Seq<char>,
    pub session_key: Seq<char>,
    pub shared_history: bool,
}

impl View for ExportedRoomKey {
    type V = ExportedRoomKeyView;

    open spec fn view(&self) -> ExportedRoomKeyView {
        ExportedRoomKeyView {
            algorithm: self.algorithm@,
            room_id: self.room_id@,
            sender_key: self.sender_key@,
            session_id: self.session_id@,
            session_key: self.session_key@,
            shared_history: self.shared_history,
        }
    }
}

impl Clone for ExportedRoomKey {
    fn clone(&self) -> (r: Self)
        ensures
            r@ == self@,
    {
        ExportedRoomKey {
            algorithm: self.algorithm.clone(),
            room_id: self.room_id.clone(),
            sender_key: self.sender_key.clone(),
            session_id: self.session_id.clone(),
            session_key: self.session_key.clone(),
            shared_history: self.shared_history,
        }
    }
}

/// What a session key yields when it is imported: the session's id, the
/// first message index it can decrypt, and the key in canonical form.
pub struct ImportedKey {
    /// The id of the session, derived from its signing key.
    pub session_id: String,
    /// The first message index that the session can decrypt.
    pub first_known_index: u32,
    /// The session key as the session exports it at that index.
    pub session_key: String,
}

/// The model of an [`ImportedKey`].
pub struct ImportedKeyView {
    pub session_id: Seq<char>,
    pub first_known_index: u32,
    pub session_key: Seq<char>,
}

impl View for ImportedKey {
    type V = ImportedKeyView;

    open spec fn view(&self) -> ImportedKeyView {
        ImportedKeyView {
            session_id: self.session_id@,
            first_known_index: self.first_known_index,
            session_key: self.session_key@,
        }
    }
}

/// The model of what importing a session key gave.
pub open spec fn imported_view(imported: Option<ImportedKey>) -> Option<ImportedKeyView> {
    match imported {
        Some(k) => Some(k@),
        None => None,
    }
}

/// Why an exported room key could not be turned into a session.
#[derive(Debug)]
pub enum SessionCreationError {
    /// The key belongs to an algorithm other than Megolm version 1.
    Algorithm,
    /// The session key does not decode.
    InvalidSessionKey,
}

/// A room key as it is held in the store.
#[derive(Debug)]
pub struct InboundGroupSession {
    room_id: String,
    session_id: String,
    sender_key: String,
    session_key: String,
    first_known_index: u32,
    shared_history: bool,
    backed_up: bool,
    imported: bool,
}

/// The model of an [`InboundGroupSession`].
pub struct SessionView {
    /// The room in which the session is used.
    pub room_id: Seq<char>,
    /// The id of the session.
    pub session_id: Seq<char>,
    /// The Curve25519 key of the device that created the session.
    pub sender_key: Seq<char>,
    /// The session key, exported at the first known index.
    pub session_key: Seq<char>,
    /// The first message index that the session can decrypt.
    pub first_known_index: u32,
    /// Whether the key may be shared with newly invited members.
    pub shared_history: bool,
    /// Whether the session is known to be in the key backup.
    pub backed_up: bool,
    /// Whether the session came from an import rather than from its sender.
    pub imported: bool,
}

/// The session that an exported key and the result of importing its session
/// key give, or `None` where they give none.
pub open spec fn session_from_parts(
    key: ExportedRoomKeyView,
    imported: Option<ImportedKeyView>,
) -> Option<SessionView> {
    if key.algorithm != AlgorithmView::MegolmV1AesSha2 {
        None
    } else {
        match imported {
            None => None,
            Some(k) => Some(
                SessionView {
                    room_id: key.room_id,
                    session_id: k.session_id,
                    sender_key: key.sender_key,
                    session_key: k.session_key,
                    first_known_index: k.first_known_index,
                    shared_history: key.shared_history,
                    backed_up: false,
                    imported: true,
                },
            ),
        }
    }
}

/// The session that an exported key is imported as.
pub open spec fn session_from_export(key: ExportedRoomKeyView) -> Option<SessionView> {
    session_from_parts(key, imported_session_key(key.session_key))
}

/// How `first` relates to `second`, given how their session keys compare.
/// Sessions of different rooms, senders or ids are never ordered, nor are
/// sessions whose keys do not decode; two sessions with one and the same key
/// are equal.
pub open spec fn ordering_from_parts(
    first: SessionView,
    second: SessionView,
    keys: Option<SessionOrdering>,
) -> SessionOrdering {
    if first.room_id != second.room_id || first.sender_key != second.sender_key
        || first.session_id != second.session_id {
        SessionOrdering::Unconnected
    } else {
        match keys {
            None => SessionOrdering::Unconnected,
            Some(o) => if first.session_key == second.session_key {
                SessionOrdering::Equal
            } else {
                o
            },
        }
    }
}

/// How `first` relates to `second`.
pub open spec fn session_ordering(first: SessionView, second: SessionView) -> SessionOrdering {
    ordering_from_parts(first, second, session_key_ordering(first.session_key, second.session_key))
}

impl View for InboundGroupSession {
    type V = SessionView;

    closed spec fn view(&self) -> SessionView {
        SessionView {
            room_id: self.room_id@,
            session_id: self.session_id@,
            sender_key: self.sender_key@,
            session_key: self.session_key@,
            first_known_index: self.first_known_index,
            shared_history: self.shared_history,
            backed_up: self.backed_up,
            imported: self.imported,
        }
    }
}

impl Clone for InboundGroupSession {
    fn clone(&self) -> (r: Self)
        ensures
            r@ == self@,
    {
        InboundGroupSession {
            room_id: self.room_id.clone(),
            session_id: self.session_id.clone(),
            sender_key: self.sender_key.clone(),
            session_key: self.session_key.clone(),
            first_known_index: self.first_known_index,
            shared_history: self.shared_history,
            backed_up: self.backed_up,
            imported: self.imported,
        }
    }
}

impl InboundGroupSession {
    /// Builds the session for `key` from what importing its session key gave.
    pub fn from_parts(key: &ExportedRoomKey, imported: Option<ImportedKey>) -> (r: Result<
        InboundGroupSession,
        SessionCreationError,
    >)
        ensures
            match r {
                Ok(s) => session_from_parts(key@, imported_view(imported)) == Some(s@),
                Err(SessionCreationError::Algorithm) => key@.algorithm
                    != AlgorithmView::MegolmV1AesSha2,
                Err(SessionCreationError::InvalidSessionKey) => key@.algorithm
                    == AlgorithmView::MegolmV1AesSha2 && imported is None,
            },
    {
        if !key.algorithm.is_megolm_v1() {
            return Err(SessionCreationError::Algorithm);
        }
        match imported {
            None => Err(SessionCreationError::InvalidSessionKey),
            Some(k) => Ok(
                InboundGroupSession {
                    room_id: key.room_id.clone(),
                    session_id: k.session_id,
                    sender_key: key.sender_key.clone(),
                    session_key: k.session_key,
                    first_known_index: k.first_known_index,
                    shared_history: key.shared_history,
                    backed_up: false,
                    imported: true,
                },
            ),
        }
    }

    /// Turns an exported room key into a session. The id and the first known
    /// index come from the session key, not from what the exporter claims.
    pub fn from_export(key: &ExportedRoomKey) -> (r: Result<
        InboundGroupSession,
        SessionCreationError,
    >)
        ensures
            match r {
                Ok(s) => session_from_export(key@) == Some(s@),
                Err(_) => session_from_export(key@) is None,
            },
            r matches Err(SessionCreationError::Algorithm) <==> key@.algorithm
                != AlgorithmView::MegolmV1AesSha2,
    {
        let imported = import_session_key(key.session_key.as_str());
        InboundGroupSession::from_parts(key, imported)
    }

    /// The room in which the session is used.
    pub fn room_id(&self) -> (r: &String)
        ensures
            r@ == self@.room_id,
    {
        &self.room_id
    }

    /// The id of the session.
    pub fn session_id(&self) -> (r: &String)
        ensures
            r@ == self@.session_id,
    {
        &self.session_id
    }

    /// The Curve25519 key of the device that created the session.
    pub fn sender_key(&self) -> (r: &String)
        ensures
            r@ == self@.sender_key,
    {
        &self.sender_key
    }

    /// The first message index that the session can decrypt.
    pub fn first_known_index(&self) -> (r: u32)
        ensures
            r == self@.first_known_index,
    {
        self.first_known_index
    }

    /// Whether the key may be shared with newly invited members.
    pub fn shared_history(&self) -> (r: bool)
        ensures
            r == self@.shared_history,
    {
        self.shared_history
    }

    /// Whether the session is known to be in the key backup.
    pub fn backed_up(&self) -> (r: bool)
        ensures
            r == self@.backed_up,
    {
        self.backed_up
    }

    /// Whether the session came from an import.
    pub fn has_been_imported(&self) -> (r: bool)
        ensures
            r == self@.imported,
    {
        self.imported
    }

    /// The algorithm of the session: every session is a Megolm version 1 one.
    pub fn algorithm(&self) -> (r: EventEncryptionAlgorithm)
        ensures
            r@ == AlgorithmView::MegolmV1AesSha2,
    {
        EventEncryptionAlgorithm::MegolmV1AesSha2
    }

    /// Records that the session is in the key backup.
    pub fn mark_as_backed_up(&mut self)
        ensures
            final(self)@ == (SessionView { backed_up: true, ..old(self)@ }),
    {
        self.backed_up = true;
    }

    /// The session as an exported room key, at its first known index.
    pub fn export(&self) -> (r: ExportedRoomKey)
        ensures
            r@ == exported_key(self@),
    {
        ExportedRoomKey {
            algorithm: EventEncryptionAlgorithm::MegolmV1AesSha2,
            room_id: self.room_id.clone(),
            sender_key: self.sender_key.clone(),
            session_id: self.session_id.clone(),
            session_key: self.session_key.clone(),
            shared_history: self.shared_history,
        }
    }

    /// How this session relates to `other`, given how the two session keys
    /// compare.
    pub fn compare_with(&self, other: &InboundGroupSession, keys: Option<SessionOrdering>) -> (r:
        SessionOrdering)
        ensures
            r == ordering_from_parts(self@, other@, keys),
    {
        if self.room_id != other.room_id || self.sender_key != other.sender_key || self.session_id
            != other.session_id {
            SessionOrdering::Unconnected
        } else {
            match keys {
                None => SessionOrdering::Unconnected,
                Some(o) => if self.session_key == other.session_key {
                    SessionOrdering::Equal
                } else {
                    o
                },
            }
        }
    }

    /// How this session relates to `other`.
    pub fn compare(&self, other: &InboundGroupSession) -> (r: SessionOrdering)
        ensures
            r == session_ordering(self@, other@),
    {
        let keys = compare_session_keys(self.session_key.as_str(), other.session_key.as_str());
        self.compare_with(other, keys)
    }
}

/// The exported room key that a session gives.
pub open spec fn exported_key(s: SessionView) -> ExportedRoomKeyView {
    ExportedRoomKeyView {
        algorithm: AlgorithmView::MegolmV1AesSha2,
        room_id: s.room_id,
        sender_key: s.sender_key,
        session_id: s.session_id,
        session_key: s.session_key,
        shared_history: s.shared_history,
    }
}

/// What subscribers are told of a room key that was received.
#[derive(Debug)]
pub struct RoomKeyInfo {
    /// The algorithm of the session.
    pub algorithm: EventEncryptionAlgorithm,
    /// The room in which the session is used.
    pub room_id: String,
    /// The Curve25519 key of the device that created the session, in base64.
    pub sender_key: String,
    /// The id of the session.
    pub session_id: String,
}

/// The model of [`RoomKeyInfo`].
pub struct RoomKeyInfoView {
    pub algorithm: AlgorithmView,
    pub room_id: Seq<char>,
    pub sender_key: Seq<char>,
    pub session_id: Seq<char>,
}

impl View for RoomKeyInfo {
    type V = RoomKeyInfoView;

    open spec fn view(&self) -> RoomKeyInfoView {
        RoomKeyInfoView {
            algorithm: self.algorithm@,
            room_id: self.room_id@,
            sender_key: self.sender_key@,
            session_id: self.session_id@,
        }
    }
}

impl Clone for RoomKeyInfo {
    fn clone(&self) -> (r: Self)
        ensures
            r@ == self@,
    {
        RoomKeyInfo {
            algorithm: self.algorithm.clone(),
            room_id: self.room_id.clone(),
            sender_key: self.sender_key.clone(),
            session_id: self.session_id.clone(),
        }
    }
}
/// What subscribers are told of a session.
pub open spec fn room_key_info(s: SessionView) -> RoomKeyInfoView {
    RoomKeyInfoView {
        algorithm: AlgorithmView::MegolmV1AesSha2,
        room_id: s.room_id,
        sender_key: s.sender_key,
        session_id: s.session_id,
    }
}

impl InboundGroupSession {
    /// What subscribers are told of this session.
    pub fn info(&self) -> (r: RoomKeyInfo)
        ensures
            r@ == room_key_info(self@),
    {
        RoomKeyInfo {
            algorithm: self.algorithm(),
            room_id: self.room_id.clone(),
            sender_key: self.sender_key.clone(),
            session_id: self.session_id.clone(),
        }
    }
}

} // verus!
