use crypto_store::identities::{
    DeviceData, OtherUserIdentityData, OwnUserIdentityData, UserIdentityData, VerificationMachine,
};
use crypto_store::updates::{
    collect_device_updates, collect_identity_updates, identities_into_map, DeviceChanges,
    IdentityChanges,
};

fn machine() -> VerificationMachine {
    VerificationMachine { own_user_id: "@alice:x".to_owned(), own_device_id: "ALICE".to_owned() }
}

fn own() -> OwnUserIdentityData {
    OwnUserIdentityData {
        user_id: "@alice:x".to_owned(),
        master_key: "am".to_owned(),
        self_signing_key: "as".to_owned(),
        user_signing_key: "au".to_owned(),
        verified: true,
    }
}

fn other(user: &str, master: &str) -> UserIdentityData {
    UserIdentityData::Other(OtherUserIdentityData {
        user_id: user.to_owned(),
        master_key: master.to_owned(),
        self_signing_key: "s".to_owned(),
    })
}

fn device(user: &str, id: &str, name: &str) -> DeviceData {
    DeviceData {
        user_id: user.to_owned(),
        device_id: id.to_owned(),
        display_name: Some(name.to_owned()),
        curve25519_key: None,
    }
}

fn master_key(identity: &Option<UserIdentityData>) -> Option<&str> {
    match identity {
        Some(UserIdentityData::Other(i)) => Some(i.master_key.as_str()),
        Some(UserIdentityData::Own(i)) => Some(i.master_key.as_str()),
        None => None,
    }
}

#[test]
fn test_collect_device_updates_keeps_new_and_changed_apart() {
    let identities = IdentityChanges { new: vec![], changed: vec![], unchanged: vec![] };
    let devices = DeviceChanges {
        new: vec![device("@bob:x", "B1", "new")],
        changed: vec![device("@carol:x", "C1", "changed")],
        deleted: vec![device("@dave:x", "D1", "deleted")],
    };
    let updates = collect_device_updates(machine(), Some(own()), identities, devices);

    assert_eq!(updates.new.len(), 1);
    assert_eq!(updates.changed.len(), 1);
    let new = updates.new.get("@bob:x", "B1").unwrap();
    assert_eq!(new.inner.display_name.as_deref(), Some("new"));
    assert_eq!(new.verification_machine.own_device_id, "ALICE");
    assert_eq!(new.own_identity.as_ref().unwrap().user_id, "@alice:x");
    assert!(new.device_owner_identity.is_none());
    assert!(updates.new.get("@carol:x", "C1").is_none());
    assert!(updates.changed.get("@carol:x", "C1").is_some());
    assert!(updates.changed.get("@dave:x", "D1").is_none());
    assert!(updates.new.get("@dave:x", "D1").is_none());
}

#[test]
fn test_collect_device_updates_finds_the_owner_among_new_then_changed_then_unchanged() {
    let identities = IdentityChanges {
        new: vec![other("@bob:x", "new")],
        changed: vec![other("@bob:x", "changed"), other("@carol:x", "changed")],
        unchanged: vec![
            other("@bob:x", "unchanged"),
            other("@carol:x", "unchanged"),
            other("@dave:x", "unchanged"),
        ],
    };
    let devices = DeviceChanges {
        new: vec![
            device("@bob:x", "B1", ""),
            device("@carol:x", "C1", ""),
            device("@dave:x", "D1", ""),
            device("@erin:x", "E1", ""),
        ],
        changed: vec![],
        deleted: vec![],
    };
    let updates = collect_device_updates(machine(), None, identities, devices);
    let owner = |user: &str, id: &str| {
        master_key(&updates.new.get(user, id).unwrap().device_owner_identity).map(|k| k.to_owned())
    };
    assert_eq!(owner("@bob:x", "B1").as_deref(), Some("new"));
    assert_eq!(owner("@carol:x", "C1").as_deref(), Some("changed"));
    assert_eq!(owner("@dave:x", "D1").as_deref(), Some("unchanged"));
    assert_eq!(owner("@erin:x", "E1"), None);
    assert!(updates.new.get("@bob:x", "B1").unwrap().own_identity.is_none());
}

#[test]
fn test_collect_device_updates_walks_in_key_order() {
    let identities = IdentityChanges { new: vec![], changed: vec![], unchanged: vec![] };
    let devices = DeviceChanges {
        new: vec![
            device("@carol:x", "C1", ""),
            device("@bob:x", "B2", ""),
            device("@bob:x", "B1", "first"),
            device("@bob:x", "B1", "second"),
        ],
        changed: vec![],
        deleted: vec![],
    };
    let updates = collect_device_updates(machine(), None, identities, devices);
    assert_eq!(updates.new.len(), 2);
    assert_eq!(updates.new.key_at(0).as_str(), "@bob:x");
    assert_eq!(updates.new.key_at(1).as_str(), "@carol:x");
    let bob = updates.new.entries_of("@bob:x").unwrap();
    assert_eq!(bob.len(), 2);
    assert_eq!(bob.key_at(0).as_str(), "B1");
    assert_eq!(bob.key_at(1).as_str(), "B2");
    assert_eq!(bob.value_at(0).inner.display_name.as_deref(), Some("second"));
}

#[test]
fn test_collect_device_updates_of_nothing() {
    let identities = IdentityChanges { new: vec![], changed: vec![], unchanged: vec![] };
    let devices = DeviceChanges { new: vec![], changed: vec![], deleted: vec![] };
    let updates = collect_device_updates(machine(), None, identities, devices);
    assert_eq!(updates.new.len(), 0);
    assert_eq!(updates.changed.len(), 0);
}

#[test]
fn test_identities_into_map_keeps_the_later_identity() {
    let map = identities_into_map(&vec![
        other("@bob:x", "first"),
        other("@alice:x", "only"),
        other("@bob:x", "second"),
    ]);
    assert_eq!(map.len(), 2);
    assert_eq!(map.key_at(0).as_str(), "@alice:x");
    assert_eq!(master_key(&map.get("@bob:x").cloned()), Some("second"));
}

#[test]
fn test_collect_identity_updates() {
    let identities = IdentityChanges {
        new: vec![other("@bob:x", "b")],
        changed: vec![UserIdentityData::Own(own())],
        unchanged: vec![other("@carol:x", "c")],
    };
    let updates = collect_identity_updates(machine(), Some(own()), identities);
    assert_eq!(updates.new.len(), 1);
    assert_eq!(updates.changed.len(), 1);
    assert_eq!(updates.unchanged.len(), 1);
    let bob = updates.new.get("@bob:x").unwrap();
    assert_eq!(bob.inner.user_id().as_str(), "@bob:x");
    assert_eq!(bob.own_identity.as_ref().unwrap().master_key, "am");
    assert_eq!(bob.verification_machine.own_user_id, "@alice:x");
    assert!(updates.changed.get("@alice:x").unwrap().inner.own().is_some());
    assert!(updates.unchanged.get("@carol:x").is_some());
    assert!(updates.unchanged.get("@bob:x").is_none());
}
