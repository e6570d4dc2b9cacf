use std::cell::RefCell;

use crypto_store::bundle::{
    keys_to_import, BundleKeys, HistoricRoomKey, ReceivedBundle, RoomKeyBundle, WithheldCode,
};
use crypto_store::export::{export_room_keys, export_room_keys_stream};
use crypto_store::import::{
    get_inbound_group_session, import_sessions_impl, new_session_better, room_key_updates,
    save_inbound_group_sessions,
};
use crypto_store::room_key::{
    EventEncryptionAlgorithm, ExportedRoomKey, ImportedKey, InboundGroupSession,
    SessionCreationError, SessionOrdering,
};
use crypto_store::secrets::PrivateCrossSigningIdentity;
use crypto_store::identities::VerificationMachine;
use crypto_store::store::{StaticAccountData, Store};
use vodozemac::megolm::{GroupSession, SessionConfig, SessionKey};

const SENDER_KEY: &str = "mjkTX0I0Cp44ZfolOVbFe5WYPRmT6AX3J0ZbnGWnnWs";

const SESSION_KEY1: &str = "AgAAAAC2XHVzsMBKs4QCRElJ92CJKyGtknCSC8HY7cQ7UYwndMKLQAejXLh5UA0l6s736mgctcUMNvELScUWrObdflrHo+vth/gWreXOaCnaSxmyjjKErQwyIYTkUfqbHy40RJfEesLwnN23on9XAkch/iy8R2+Jz7B8zfG01f2Ow2SxPQFnAndcO1ZSD2GmXgedy6n4B20MWI1jGP2wiexOWbFSya8DO/VxC9m5+/mF+WwYqdpKn9g4Y05Yw4uz7cdjTc3rXm7xK+8E7hI//5QD1nHPvuKYbjjM9u2JSL+Bzp61Cw";
const SESSION_KEY2: &str = "AgAAAAC1BXreFTUQQSBGekTEuYxhdytRKyv4JgDGcG+VOBYdPNGgs807SdibCGJky4lJ3I+7ZDGHoUzZPZP/4ogGu4kxni0PWdtWuN7+5zsuamgoFF/BkaGeUUGv6kgIkx8pyPpM5SASTUEP9bN2loDSpUPYwfiIqz74DgC4WQ4435sTBctYvKz8n+TDJwdLXpyT6zKljuqADAioud+s/iqx9LYn9HpbBfezZcvbg67GtE113pLrvde3IcPI5s6dNHK2onGO2B2eoaobcen18bbEDnlUGPeIivArLya7Da6us14jBQ";
const SESSION_KEY3: &str = "AgAAAAAM9KFsliaUUhGSXgwOzM5UemjkNH4n8NHgvC/y8hhw13zTF+ooGD4uIYEXYX630oNvQm/EvgZo+dkoc0re+vsqsx4sQeNODdSjcBsWOa0oDF+irQn9oYoLUDPI1IBtY1rX+FV99Zm/xnG7uFOX7aTVlko2GSdejy1w9mfobmfxu5aUc04A9zaKJP1pOthZvRAlhpymGYHgsDtWPrrjyc/yypMflE4kIUEEEtu1kT6mrAmcl615XYRAHYK9G2+fZsGvokwzbkl4nulGwcZMpQEoM0nD2o3GWgX81HW3nGfKBg";
const SESSION_KEY4: &str = "AgAAAAA4Kkesxq2h4v9PLD6Sm3Smxspz1PXTqytQPCMQMkkrHNmzV2bHlJ+6/Al9cu8vh1Oj69AK0WUAeJOJuaiskEeg/PI3P03+UYLeC379RzgqwSHdBgdQ41G2vD6zpgmE/8vYToe+qpCZACtPOswZxyqxHH+T/Iq0nv13JmlFGIeA6fEPfr5Y28B49viG74Fs9rxV9EH5PfjbuPM/p+Sz5obShuaBPKQBX1jT913nEXPoIJ06exNZGr0285nw/LgVvNlmWmbqNnbzO2cNZjQWA+xZYz5FSfyCxwqEBbEdUCuRCQ";

/// The exported form, at `index`, of the session that `session_key` starts.
fn exported_at(session_key: &str, index: u32) -> String {
    let key = SessionKey::from_base64(session_key).unwrap();
    let mut session = vodozemac::megolm::InboundGroupSession::new(&key, SessionConfig::version_1());
    session.export_at(index).unwrap().to_base64()
}

fn session_id_of(session_key: &str) -> String {
    let key = SessionKey::from_base64(session_key).unwrap();
    vodozemac::megolm::InboundGroupSession::new(&key, SessionConfig::version_1()).session_id()
}

fn room_key(room: &str, session_key: &str, index: u32, shared_history: bool) -> ExportedRoomKey {
    ExportedRoomKey {
        algorithm: EventEncryptionAlgorithm::MegolmV1AesSha2,
        room_id: room.to_owned(),
        sender_key: SENDER_KEY.to_owned(),
        session_id: session_id_of(session_key),
        session_key: exported_at(session_key, index),
        shared_history,
    }
}

fn session(room: &str, session_key: &str, index: u32, shared_history: bool) -> InboundGroupSession {
    InboundGroupSession::from_export(&room_key(room, session_key, index, shared_history)).unwrap()
}

fn store(device: &str) -> Store {
    Store::new(
        StaticAccountData { user_id: "@b:s.co".to_owned(), device_id: device.to_owned() },
        PrivateCrossSigningIdentity::empty("@b:s.co"),
        VerificationMachine { own_user_id: "@b:s.co".to_owned(), own_device_id: device.to_owned() },
    )
}

#[test]
fn test_session_from_export_takes_id_and_index_from_the_key() {
    let mut key = room_key("!room1:localhost", SESSION_KEY1, 3, true);
    key.session_id = "what the exporter claims".to_owned();
    let session = InboundGroupSession::from_export(&key).unwrap();
    assert_eq!(session.session_id().as_str(), session_id_of(SESSION_KEY1));
    assert_eq!(session.first_known_index(), 3);
    assert_eq!(session.room_id().as_str(), "!room1:localhost");
    assert_eq!(session.sender_key().as_str(), SENDER_KEY);
    assert!(session.shared_history());
    assert!(session.has_been_imported());
    assert!(!session.backed_up());
    assert!(matches!(session.algorithm(), EventEncryptionAlgorithm::MegolmV1AesSha2));
}

#[test]
fn test_session_from_parts() {
    let key = ExportedRoomKey {
        algorithm: EventEncryptionAlgorithm::MegolmV1AesSha2,
        room_id: "!room1:localhost".to_owned(),
        sender_key: "sender".to_owned(),
        session_id: "claimed".to_owned(),
        session_key: "as offered".to_owned(),
        shared_history: false,
    };
    let imported = ImportedKey {
        session_id: "derived".to_owned(),
        first_known_index: 12,
        session_key: "canonical".to_owned(),
    };
    let session = InboundGroupSession::from_parts(&key, Some(imported)).unwrap();
    assert_eq!(session.room_id().as_str(), "!room1:localhost");
    assert_eq!(session.sender_key().as_str(), "sender");
    assert_eq!(session.session_id().as_str(), "derived");
    assert_eq!(session.first_known_index(), 12);
    assert_eq!(session.export().session_key, "canonical");
    assert!(!session.shared_history());
    assert!(!session.backed_up());
    assert!(session.has_been_imported());

    assert!(matches!(
        InboundGroupSession::from_parts(&key, None),
        Err(SessionCreationError::InvalidSessionKey)
    ));
    let other = ExportedRoomKey { algorithm: EventEncryptionAlgorithm::OlmV1Curve25519AesSha2, ..key };
    assert!(matches!(
        InboundGroupSession::from_parts(&other, None),
        Err(SessionCreationError::Algorithm)
    ));
}

#[test]
fn test_mark_as_backed_up() {
    let mut session = session("!room1:localhost", SESSION_KEY1, 0, true);
    assert!(!session.backed_up());
    session.mark_as_backed_up();
    assert!(session.backed_up());
    assert_eq!(session.first_known_index(), 0);
    assert_eq!(session.info().room_id, "!room1:localhost");
}

#[test]
fn test_session_from_export_refuses_other_algorithms() {
    let mut key = room_key("!room1:localhost", SESSION_KEY1, 0, true);
    key.algorithm = EventEncryptionAlgorithm::Unknown("m.megolm.v2".to_owned());
    assert!(matches!(
        InboundGroupSession::from_export(&key),
        Err(SessionCreationError::Algorithm)
    ));
    key.algorithm = EventEncryptionAlgorithm::OlmV1Curve25519AesSha2;
    assert!(matches!(
        InboundGroupSession::from_export(&key),
        Err(SessionCreationError::Algorithm)
    ));
}

#[test]
fn test_session_from_export_refuses_a_key_that_does_not_decode() {
    let mut key = room_key("!room1:localhost", SESSION_KEY1, 0, true);
    key.session_key = "not a session key".to_owned();
    assert!(matches!(
        InboundGroupSession::from_export(&key),
        Err(SessionCreationError::InvalidSessionKey)
    ));
}

#[test]
fn test_session_export_gives_the_key_back() {
    let key = room_key("!room1:localhost", SESSION_KEY1, 5, false);
    let exported = InboundGroupSession::from_export(&key).unwrap().export();
    assert_eq!(exported.session_key, key.session_key);
    assert_eq!(exported.session_id, key.session_id);
    assert_eq!(exported.room_id, "!room1:localhost");
    assert_eq!(exported.sender_key, SENDER_KEY);
    assert!(!exported.shared_history);
    assert_eq!(exported.session_key.len(), 220);
}

#[test]
fn test_compare_orders_versions_of_one_session() {
    let early = session("!room1:localhost", SESSION_KEY1, 0, true);
    let late = session("!room1:localhost", SESSION_KEY1, 10, true);
    assert_eq!(early.compare(&late), SessionOrdering::Better);
    assert_eq!(late.compare(&early), SessionOrdering::Worse);
    assert_eq!(early.compare(&early.clone()), SessionOrdering::Equal);
}

#[test]
fn test_compare_never_orders_across_rooms_senders_or_sessions() {
    let here = session("!room1:localhost", SESSION_KEY1, 0, true);
    let elsewhere = session("!room2:localhost", SESSION_KEY1, 10, true);
    assert_eq!(here.compare(&elsewhere), SessionOrdering::Unconnected);

    let other_session = session("!room1:localhost", SESSION_KEY2, 10, true);
    assert_eq!(here.compare(&other_session), SessionOrdering::Unconnected);

    let mut key = room_key("!room1:localhost", SESSION_KEY1, 10, true);
    key.sender_key = "another sender".to_owned();
    let other_sender = InboundGroupSession::from_export(&key).unwrap();
    assert_eq!(here.compare(&other_sender), SessionOrdering::Unconnected);
}

#[test]
fn test_compare_with_follows_the_result_of_the_key_comparison() {
    let early = session("!room1:localhost", SESSION_KEY1, 0, true);
    let late = session("!room1:localhost", SESSION_KEY1, 10, true);
    assert_eq!(early.compare_with(&late, Some(SessionOrdering::Worse)), SessionOrdering::Worse);
    assert_eq!(early.compare_with(&late, None), SessionOrdering::Unconnected);
    assert_eq!(
        early.compare_with(&early.clone(), Some(SessionOrdering::Better)),
        SessionOrdering::Equal
    );
    let elsewhere = session("!room2:localhost", SESSION_KEY1, 10, true);
    assert_eq!(
        early.compare_with(&elsewhere, Some(SessionOrdering::Better)),
        SessionOrdering::Unconnected
    );
}

#[test]
fn test_new_session_better_without_an_old_session() {
    let new = session("!room1:localhost", SESSION_KEY1, 4, true);
    assert!(new_session_better(&new, None));
    let older = session("!room1:localhost", SESSION_KEY1, 2, true);
    assert!(!new_session_better(&new, Some(&older)));
    assert!(new_session_better(&older, Some(&new)));
    assert!(!new_session_better(&new, Some(&new.clone())));
}

#[test]
fn test_compare_group_session_is_better_without_a_stored_session() {
    let store = store("BOB");
    let new = session("!room1:localhost", SESSION_KEY1, 4, true);
    assert_eq!(store.compare_group_session(&new, None), SessionOrdering::Better);
    let older = session("!room1:localhost", SESSION_KEY1, 2, true);
    assert_eq!(store.compare_group_session(&new, Some(&older)), SessionOrdering::Worse);
}

#[test]
fn test_import_reports_counts_keys_and_progress() {
    let stored = Vec::new();
    let mut bad = room_key("!room1:localhost", SESSION_KEY3, 0, true);
    bad.session_key = "AAAA".to_owned();
    let keys = vec![
        room_key("!room1:localhost", SESSION_KEY1, 0, true),
        bad,
        room_key("!room2:localhost", SESSION_KEY2, 0, false),
    ];
    let progress = RefCell::new(Vec::new());
    let import = import_sessions_impl(&stored, &keys, None, |i, n| progress.borrow_mut().push((i, n)));

    assert_eq!(import.result.imported_count, 2);
    assert_eq!(import.result.total_count, 3);
    assert_eq!(import.sessions.len(), 2);
    assert_eq!(import.sessions[0].room_id().as_str(), "!room1:localhost");
    assert_eq!(import.sessions[1].room_id().as_str(), "!room2:localhost");
    assert!(!import.sessions[0].backed_up());
    assert_eq!(*progress.borrow(), vec![(0, 3), (1, 3), (2, 3)]);

    let index = &import.result.keys;
    assert!(index.has("!room1:localhost", SENDER_KEY, &session_id_of(SESSION_KEY1)));
    assert!(index.has("!room2:localhost", SENDER_KEY, &session_id_of(SESSION_KEY2)));
    assert!(!index.has("!room1:localhost", SENDER_KEY, &session_id_of(SESSION_KEY2)));
    assert!(!index.has("!room1:localhost", SENDER_KEY, &session_id_of(SESSION_KEY3)));
    assert_eq!(index.room_count(), 2);
    assert_eq!(index.room_at(0).as_str(), "!room1:localhost");
    assert_eq!(index.room_at(1).as_str(), "!room2:localhost");
}

#[test]
fn test_import_of_nothing() {
    let import = import_sessions_impl(&Vec::new(), &Vec::new(), None, |_, _| {});
    assert_eq!(import.result.imported_count, 0);
    assert_eq!(import.result.total_count, 0);
    assert!(import.sessions.is_empty());
    assert_eq!(import.result.keys.room_count(), 0);
}

#[test]
fn test_import_from_backup_marks_sessions_as_backed_up() {
    let keys = vec![room_key("!room1:localhost", SESSION_KEY1, 0, true)];
    let import = import_sessions_impl(&Vec::new(), &keys, Some("1"), |_, _| {});
    assert_eq!(import.sessions.len(), 1);
    assert!(import.sessions[0].backed_up());
}

#[test]
fn test_import_same_session_twice_stores_it_once() {
    let mut stored = Vec::new();
    let keys = vec![room_key("!room1:localhost", SESSION_KEY1, 0, true)];

    let first = import_sessions_impl(&stored, &keys, None, |_, _| {});
    assert_eq!(first.result.imported_count, 1);
    save_inbound_group_sessions(&mut stored, &first.sessions);
    assert_eq!(stored.len(), 1);

    let second = import_sessions_impl(&stored, &keys, None, |_, _| {});
    assert_eq!(second.result.imported_count, 0);
    assert_eq!(second.result.total_count, 1);
    assert!(second.sessions.is_empty());
    save_inbound_group_sessions(&mut stored, &second.sessions);
    assert_eq!(stored.len(), 1);
}

#[test]
fn test_worse_session_does_not_replace_the_stored_one() {
    let mut stored = vec![session("!room1:localhost", SESSION_KEY1, 2, true)];
    let worse = vec![room_key("!room1:localhost", SESSION_KEY1, 9, true)];

    let import = import_sessions_impl(&stored, &worse, None, |_, _| {});
    assert_eq!(import.result.imported_count, 0);
    save_inbound_group_sessions(&mut stored, &import.sessions);
    assert_eq!(stored.len(), 1);
    assert_eq!(stored[0].first_known_index(), 2);
}

#[test]
fn test_better_session_replaces_the_stored_one() {
    let mut stored = vec![
        session("!room2:localhost", SESSION_KEY2, 0, true),
        session("!room1:localhost", SESSION_KEY1, 7, true),
    ];
    let better = vec![room_key("!room1:localhost", SESSION_KEY1, 1, true)];

    let import = import_sessions_impl(&stored, &better, None, |_, _| {});
    assert_eq!(import.result.imported_count, 1);
    save_inbound_group_sessions(&mut stored, &import.sessions);
    assert_eq!(stored.len(), 2);
    assert_eq!(stored[0].room_id().as_str(), "!room2:localhost");
    assert_eq!(stored[1].first_known_index(), 1);
}

#[test]
fn test_session_of_another_room_with_the_same_id_is_new() {
    let stored = vec![session("!room1:localhost", SESSION_KEY1, 0, true)];
    let keys = vec![room_key("!room2:localhost", SESSION_KEY1, 5, true)];
    let import = import_sessions_impl(&stored, &keys, None, |_, _| {});
    assert_eq!(import.result.imported_count, 1);
}

#[test]
fn test_get_inbound_group_session_finds_by_room_and_id() {
    let stored = vec![
        session("!room1:localhost", SESSION_KEY1, 0, true),
        session("!room2:localhost", SESSION_KEY2, 0, true),
    ];
    let found = get_inbound_group_session(&stored, "!room2:localhost", &session_id_of(SESSION_KEY2));
    assert_eq!(found.unwrap().room_id().as_str(), "!room2:localhost");
    assert!(
        get_inbound_group_session(&stored, "!room1:localhost", &session_id_of(SESSION_KEY2))
            .is_none()
    );
}

#[test]
fn test_import_room_keys_notifies_stream() {
    let alice = vec![session("!room1:localhost", SESSION_KEY1, 0, true)];
    let exported_sessions = store("ALICE").export_room_keys(&alice, |_| true);

    let bob = store("BOB");
    let import = bob.import_room_keys(&Vec::new(), exported_sessions, None, |_, _| {});
    let room_keys = room_key_updates(&import.sessions)
        .expect("We should have received an update of room key infos");
    assert_eq!(room_keys.len(), 1);
    assert_eq!(room_keys[0].room_id, "!room1:localhost");
    assert_eq!(room_keys[0].session_id, session_id_of(SESSION_KEY1));
    assert_eq!(room_keys[0].sender_key, SENDER_KEY);
}

#[test]
fn test_no_notice_where_nothing_was_saved() {
    assert!(room_key_updates(&Vec::new()).is_none());
}

#[test]
fn test_import_exported_room_keys_does_not_mark_as_backed_up() {
    let keys = vec![room_key("!room1:localhost", SESSION_KEY1, 0, true)];
    let import = store("BOB").import_exported_room_keys(&Vec::new(), keys, |_, _| {});
    assert_eq!(import.result.imported_count, 1);
    assert!(!import.sessions[0].backed_up());
}

#[test]
fn test_export_room_keys_provides_selected_keys() {
    let stored = vec![
        session("!room1:localhost", SESSION_KEY1, 0, true),
        session("!room2:localhost", SESSION_KEY2, 0, true),
        session("!room3:localhost", SESSION_KEY3, 0, true),
    ];
    let keys = export_room_keys(&stored, |s| {
        s.room_id().as_str() == "!room2:localhost" || s.room_id().as_str() == "!room3:localhost"
    });

    assert_eq!(keys.len(), 2);
    assert!(matches!(keys[0].algorithm, EventEncryptionAlgorithm::MegolmV1AesSha2));
    assert!(matches!(keys[1].algorithm, EventEncryptionAlgorithm::MegolmV1AesSha2));
    assert_eq!(keys[0].room_id, "!room2:localhost");
    assert_eq!(keys[1].room_id, "!room3:localhost");
    assert_eq!(keys[0].session_key.len(), 220);
    assert_eq!(keys[1].session_key.len(), 220);
}

#[test]
fn test_export_asks_the_predicate_once_per_session() {
    let stored = vec![
        session("!room1:localhost", SESSION_KEY1, 0, true),
        session("!room2:localhost", SESSION_KEY2, 0, true),
    ];
    let asked = RefCell::new(Vec::new());
    let keys = export_room_keys(&stored, |s| {
        asked.borrow_mut().push(s.room_id().clone());
        false
    });
    assert!(keys.is_empty());
    assert_eq!(*asked.borrow(), vec!["!room1:localhost".to_owned(), "!room2:localhost".to_owned()]);
}

#[test]
fn test_export_room_keys_stream_can_provide_all_keys() {
    let stored = vec![
        session("!room1:localhost", SESSION_KEY1, 0, true),
        session("!room2:localhost", SESSION_KEY2, 0, true),
    ];
    let mut keys = export_room_keys_stream(&stored, |_| true);

    let mut collected = vec![];
    while let Some(key) = keys.next() {
        collected.push(key);
    }

    assert_eq!(collected.len(), 2);
    assert!(matches!(collected[0].algorithm, EventEncryptionAlgorithm::MegolmV1AesSha2));
    assert!(matches!(collected[1].algorithm, EventEncryptionAlgorithm::MegolmV1AesSha2));
    assert_eq!(collected[0].room_id, "!room1:localhost");
    assert_eq!(collected[1].room_id, "!room2:localhost");
    assert_eq!(collected[0].session_key.len(), 220);
    assert_eq!(collected[1].session_key.len(), 220);
    assert!(keys.next().is_none());
}

#[test]
fn test_export_room_keys_stream_can_provide_a_subset_of_keys() {
    let stored = vec![
        session("!room1:localhost", SESSION_KEY1, 0, true),
        session("!room2:localhost", SESSION_KEY2, 0, true),
    ];
    let mut keys =
        store("ALICE").export_room_keys_stream(&stored, |s| s.room_id().as_str() == "!room1:localhost");

    let mut collected = vec![];
    while let Some(key) = keys.next() {
        collected.push(key);
    }

    assert_eq!(collected.len(), 1);
    assert!(matches!(collected[0].algorithm, EventEncryptionAlgorithm::MegolmV1AesSha2));
    assert_eq!(collected[0].room_id, "!room1:localhost");
    assert_eq!(collected[0].session_key.len(), 220);
}

#[test]
fn test_build_room_key_bundle() {
    let stored = vec![
        session("!room1:localhost", SESSION_KEY1, 0, true),
        session("!room1:localhost", SESSION_KEY2, 0, true),
        session("!room1:localhost", SESSION_KEY3, 0, false),
        session("!room2:localhost", SESSION_KEY4, 0, true),
    ];
    let bundle = store("BOB").build_room_key_bundle(&stored, "!room1:localhost");

    assert_eq!(bundle.room_keys.len(), 2);
    assert_eq!(bundle.withheld.len(), 1);
    assert_eq!(bundle.room_keys[0].session_id, session_id_of(SESSION_KEY1));
    assert_eq!(bundle.room_keys[1].session_id, session_id_of(SESSION_KEY2));
    assert_eq!(bundle.room_keys[0].room_id, "!room1:localhost");
    assert_eq!(bundle.room_keys[0].sender_key, SENDER_KEY);
    assert_eq!(bundle.room_keys[0].session_key, exported_at(SESSION_KEY1, 0));

    let withheld = &bundle.withheld[0];
    assert_eq!(withheld.code, WithheldCode::Unauthorised);
    assert_eq!(withheld.room_id, "!room1:localhost");
    assert_eq!(withheld.session_id, session_id_of(SESSION_KEY3));
    assert_eq!(withheld.sender_key, SENDER_KEY);
    assert_eq!(withheld.from_device, "BOB");
    assert!(matches!(withheld.algorithm, EventEncryptionAlgorithm::MegolmV1AesSha2));
}

#[test]
fn test_bundle_for_a_room_without_sessions_is_empty() {
    let stored = vec![session("!room2:localhost", SESSION_KEY4, 0, true)];
    let bundle = store("BOB").build_room_key_bundle(&stored, "!room1:localhost");
    assert!(bundle.room_keys.is_empty());
    assert!(bundle.withheld.is_empty());
}

fn historic(room: &str, session_key: &str) -> HistoricRoomKey {
    HistoricRoomKey::from_exported(room_key(room, session_key, 0, true))
}

#[test]
fn test_receive_bundle_for_the_wrong_room_imports_nothing() {
    let bundle = RoomKeyBundle {
        room_keys: vec![
            historic("!room2:localhost", SESSION_KEY1),
            historic("!room3:localhost", SESSION_KEY2),
        ],
        withheld: vec![],
    };
    let called = RefCell::new(0);
    let outcome = store("BOB").receive_room_key_bundle(&Vec::new(), "!room1:localhost", &bundle, |_, _| {
        *called.borrow_mut() += 1
    });
    assert!(matches!(outcome, ReceivedBundle::WrongRoom { ignored: 2 }));
    assert_eq!(*called.borrow(), 0);
}

#[test]
fn test_keys_to_import() {
    let empty = RoomKeyBundle { room_keys: vec![], withheld: vec![] };
    assert!(matches!(keys_to_import("!room1:localhost", &empty), BundleKeys::Empty));

    let bundle = RoomKeyBundle {
        room_keys: vec![
            historic("!room2:localhost", SESSION_KEY1),
            historic("!room1:localhost", SESSION_KEY2),
            historic("!room2:localhost", SESSION_KEY3),
            historic("!room1:localhost", SESSION_KEY4),
        ],
        withheld: vec![],
    };
    assert!(matches!(
        keys_to_import("!room3:localhost", &bundle),
        BundleKeys::WrongRoom { ignored: 4 }
    ));
    match keys_to_import("!room1:localhost", &bundle) {
        BundleKeys::ForRoom { ignored, keys } => {
            assert_eq!(ignored, 2);
            assert_eq!(keys.len(), 2);
            assert_eq!(keys[0].session_id, session_id_of(SESSION_KEY2));
            assert_eq!(keys[1].session_id, session_id_of(SESSION_KEY4));
            assert_eq!(keys[0].room_id, "!room1:localhost");
            assert!(keys[0].shared_history);
        }
        _ => panic!("the bundle holds keys for the room"),
    }
}

#[test]
fn test_listener_is_called_with_an_index_below_the_total() {
    let keys = vec![
        room_key("!room1:localhost", SESSION_KEY1, 0, true),
        room_key("!room1:localhost", SESSION_KEY2, 0, true),
    ];
    let calls = RefCell::new(0);
    import_sessions_impl(&Vec::new(), &keys, None, |i, n| {
        assert!(i < n);
        assert_eq!(n, 2);
        *calls.borrow_mut() += 1;
    });
    assert_eq!(*calls.borrow(), 2);

    let bundle = RoomKeyBundle {
        room_keys: vec![
            historic("!room2:localhost", SESSION_KEY1),
            historic("!room1:localhost", SESSION_KEY2),
        ],
        withheld: vec![],
    };
    store("BOB").receive_room_key_bundle(&Vec::new(), "!room1:localhost", &bundle, |i, n| {
        assert_eq!((i, n), (0, 1));
    });
}

#[test]
fn test_receive_empty_bundle_imports_nothing() {
    let bundle = RoomKeyBundle { room_keys: vec![], withheld: vec![] };
    let outcome =
        store("BOB").receive_room_key_bundle(&Vec::new(), "!room1:localhost", &bundle, |_, _| {});
    assert!(matches!(outcome, ReceivedBundle::Empty));
}

#[test]
fn test_receive_bundle_imports_only_keys_of_the_room() {
    let bundle = RoomKeyBundle {
        room_keys: vec![
            historic("!room2:localhost", SESSION_KEY1),
            historic("!room1:localhost", SESSION_KEY2),
            historic("!room1:localhost", SESSION_KEY3),
        ],
        withheld: vec![],
    };
    let progress = RefCell::new(Vec::new());
    let outcome = store("BOB").receive_room_key_bundle(&Vec::new(), "!room1:localhost", &bundle, |i, n| {
        progress.borrow_mut().push((i, n))
    });
    match outcome {
        ReceivedBundle::Imported { ignored, import } => {
            assert_eq!(ignored, 1);
            assert_eq!(import.result.imported_count, 2);
            assert_eq!(import.result.total_count, 2);
            assert_eq!(import.sessions[0].session_id().as_str(), session_id_of(SESSION_KEY2));
            assert_eq!(import.sessions[1].session_id().as_str(), session_id_of(SESSION_KEY3));
            assert!(import.sessions[0].shared_history());
            assert!(!import.sessions[0].backed_up());
        }
        _ => panic!("the keys of the room should have been imported"),
    }
    assert_eq!(*progress.borrow(), vec![(0, 2), (1, 2)]);
}

#[test]
fn test_round_trip_of_a_bundle_between_two_stores() {
    let alice = vec![
        session("!room1:localhost", SESSION_KEY1, 0, true),
        session("!room1:localhost", SESSION_KEY2, 0, false),
    ];
    let bundle = store("ALICE").build_room_key_bundle(&alice, "!room1:localhost");

    let mut bob = Vec::new();
    match store("BOB").receive_room_key_bundle(&bob, "!room1:localhost", &bundle, |_, _| {}) {
        ReceivedBundle::Imported { ignored, import } => {
            assert_eq!(ignored, 0);
            save_inbound_group_sessions(&mut bob, &import.sessions);
        }
        _ => panic!("the bundle should have been imported"),
    }
    assert_eq!(bob.len(), 1);
    assert_eq!(bob[0].session_id().as_str(), session_id_of(SESSION_KEY1));
}

#[test]
fn test_fresh_group_session_can_be_imported() {
    let group = GroupSession::new(SessionConfig::version_1());
    let inbound =
        vodozemac::megolm::InboundGroupSession::new(&group.session_key(), SessionConfig::version_1());
    let key = ExportedRoomKey {
        algorithm: EventEncryptionAlgorithm::MegolmV1AesSha2,
        room_id: "!room1:localhost".to_owned(),
        sender_key: SENDER_KEY.to_owned(),
        session_id: group.session_id(),
        session_key: inbound.export_at_first_known_index().to_base64(),
        shared_history: true,
    };
    let session = InboundGroupSession::from_export(&key).unwrap();
    assert_eq!(session.session_id().as_str(), group.session_id());
    assert_eq!(session.first_known_index(), 0);
}
