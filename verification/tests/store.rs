use crypto_store::caches::{Account, StoreCache};
use crypto_store::identities::{
    DeviceData, OtherUserIdentityData, OwnUserIdentityData, UserIdentityData, VerificationMachine,
};
use crypto_store::secrets::{CryptoStoreError, PrivateCrossSigningIdentity};
use crypto_store::sorted_map::SortedMap;
use crypto_store::store::{LeaseStore, LockableCryptoStore, StaticAccountData, Store};
use std::cell::RefCell;

fn store() -> Store {
    Store::new(
        StaticAccountData { user_id: "@alice:example.org".to_owned(), device_id: "ALICE".to_owned() },
        PrivateCrossSigningIdentity::empty("@alice:example.org"),
        VerificationMachine {
            own_user_id: "@alice:example.org".to_owned(),
            own_device_id: "ALICE".to_owned(),
        },
    )
}

fn account(uploaded: u64) -> Account {
    Account {
        user_id: "@alice:example.org".to_owned(),
        device_id: "ALICE".to_owned(),
        shared: false,
        uploaded_key_count: uploaded,
    }
}

fn device(user: &str, id: &str, name: Option<&str>) -> DeviceData {
    DeviceData {
        user_id: user.to_owned(),
        device_id: id.to_owned(),
        display_name: name.map(|n| n.to_owned()),
        curve25519_key: None,
    }
}

fn own_identity() -> OwnUserIdentityData {
    OwnUserIdentityData {
        user_id: "@alice:example.org".to_owned(),
        master_key: "m".to_owned(),
        self_signing_key: "s".to_owned(),
        user_signing_key: "u".to_owned(),
        verified: true,
    }
}

fn other_identity(user: &str) -> UserIdentityData {
    UserIdentityData::Other(OtherUserIdentityData {
        user_id: user.to_owned(),
        master_key: "m".to_owned(),
        self_signing_key: "s".to_owned(),
    })
}

#[test]
fn test_store_knows_its_user_and_device() {
    let store = store();
    assert_eq!(store.user_id().as_str(), "@alice:example.org");
    assert_eq!(store.device_id().as_str(), "ALICE");
    assert_eq!(store.static_account().device_id, "ALICE");
    assert!(!store.cache().has_account());
    assert!(!store.cache().loaded_tracked_users());
}

#[test]
fn test_replace_cache_hands_the_cache_out() {
    let mut store = store();
    let mut cache = store.replace_cache(StoreCache::new());
    assert!(!cache.has_account());
    cache.account(Some(account(5)));
    cache.track("@bob:example.org");
    let empty = store.replace_cache(cache);
    assert!(!empty.has_account());
    assert!(store.cache().has_account());
    assert!(store.cache().is_tracked("@bob:example.org"));
}

#[test]
fn test_cache_memoizes_the_account() {
    let mut cache = StoreCache::new();
    assert!(cache.account(None).is_none());
    assert_eq!(cache.account(Some(account(1))).unwrap().uploaded_key_count, 1);
    assert_eq!(cache.account(Some(account(2))).unwrap().uploaded_key_count, 1);
    assert_eq!(cache.account(None).unwrap().uploaded_key_count, 1);
    assert!(cache.has_account());
}

#[test]
fn test_transaction_commits_the_changed_account() {
    let mut tr = store().transaction();
    assert!(tr.pending_changes().is_none());
    {
        let account = tr.account(Some(account(3))).unwrap();
        account.uploaded_key_count = 7;
        account.shared = true;
    }
    assert!(!tr.cache().has_account());
    let pending = tr.pending_changes().unwrap();
    assert_eq!(pending.account.unwrap().uploaded_key_count, 7);

    let (mut store, result) = tr.commit(Ok(()));
    assert!(result.is_ok());
    assert!(store.cache().has_account());

    let mut tr = store.transaction();
    let account = tr.account(None).unwrap();
    assert_eq!(account.uploaded_key_count, 7);
    assert!(account.shared);
    store = tr.commit(Ok(())).0;
    assert!(store.cache().has_account());
}

#[test]
fn test_transaction_hands_out_the_account_it_holds() {
    let mut tr = store().transaction();
    tr.account(Some(account(3))).unwrap().uploaded_key_count = 4;
    let again = tr.account(Some(account(9))).unwrap();
    assert_eq!(again.uploaded_key_count, 4);
}

#[test]
fn test_transaction_without_changes_commits_nothing() {
    let tr = store().transaction();
    assert!(tr.pending_changes().is_none());
    let (store, result) = tr.commit(Err(CryptoStoreError::Backend("not looked at".to_owned())));
    assert!(result.is_ok());
    assert!(!store.cache().has_account());
}

#[test]
fn test_failed_commit_leaves_the_cache_without_the_change() {
    let mut tr = store().transaction();
    tr.account(Some(account(3))).unwrap().uploaded_key_count = 7;
    let (store, result) = tr.commit(Err(CryptoStoreError::Backend("disk full".to_owned())));
    assert!(matches!(result, Err(CryptoStoreError::Backend(message)) if message == "disk full"));
    assert!(!store.cache().has_account());
}

#[test]
fn test_rollback_discards_the_change() {
    let mut tr = store().transaction();
    tr.account(Some(account(3))).unwrap().uploaded_key_count = 7;
    let store = tr.rollback();
    assert!(!store.cache().has_account());
    assert_eq!(store.device_id().as_str(), "ALICE");
}

#[test]
fn test_transaction_without_an_account() {
    let mut tr = store().transaction();
    assert!(matches!(tr.account(None), Err(CryptoStoreError::AccountUnset)));
    assert!(tr.pending_changes().is_none());
    assert_eq!(tr.store().device_id().as_str(), "ALICE");
}

#[test]
fn test_device_display_name() {
    let store = store();
    let named = device("@alice:example.org", "ALICE", Some("Alice's phone"));
    assert_eq!(store.device_display_name(Some(&named)), Some("Alice's phone".to_owned()));
    let unnamed = device("@alice:example.org", "ALICE", None);
    assert_eq!(store.device_display_name(Some(&unnamed)), None);
    assert_eq!(store.device_display_name(None), None);
}

fn devices(user: &str, ids: &[&str]) -> SortedMap<DeviceData> {
    let mut map = SortedMap::new();
    for id in ids {
        map.insert(id.to_string(), device(user, id, None));
    }
    map
}

#[test]
fn test_filtered_devices_leave_out_the_own_device() {
    let store = store();
    let own = store.get_device_data_for_user_filtered(
        "@alice:example.org",
        devices("@alice:example.org", &["ALICE", "OTHER"]),
    );
    assert_eq!(own.len(), 1);
    assert_eq!(own.key_at(0).as_str(), "OTHER");

    let theirs = store
        .get_device_data_for_user_filtered("@bob:example.org", devices("@bob:example.org", &["ALICE", "BOB"]));
    assert_eq!(theirs.len(), 2);
}

#[test]
fn test_wrap_device_data_attaches_identities() {
    let store = store();
    let own = Some(UserIdentityData::Own(own_identity()));
    let wrapped = store.wrap_device_data(
        device("@bob:example.org", "BOB", None),
        &own,
        Some(other_identity("@bob:example.org")),
    );
    assert_eq!(wrapped.inner.device_id, "BOB");
    assert_eq!(wrapped.verification_machine.own_device_id, "ALICE");
    assert_eq!(wrapped.own_identity.unwrap().user_id, "@alice:example.org");
    assert_eq!(wrapped.device_owner_identity.unwrap().user_id().as_str(), "@bob:example.org");
}

#[test]
fn test_record_of_another_user_is_no_own_identity() {
    let store = store();
    let not_own = Some(other_identity("@alice:example.org"));
    let wrapped = store.wrap_device_data(device("@bob:example.org", "BOB", None), &not_own, None);
    assert!(wrapped.own_identity.is_none());
    assert!(wrapped.device_owner_identity.is_none());
}

#[test]
fn test_get_device_and_identity() {
    let store = store();
    let own = Some(UserIdentityData::Own(own_identity()));
    assert!(store.get_device(None, &own, None).is_none());
    let found = store.get_device(Some(device("@bob:example.org", "BOB", None)), &own, None).unwrap();
    assert_eq!(found.inner.user_id, "@bob:example.org");

    assert!(store.get_identity(&own, None).is_none());
    let identity = store.get_identity(&own, Some(other_identity("@bob:example.org"))).unwrap();
    assert_eq!(identity.inner.user_id().as_str(), "@bob:example.org");
    assert!(identity.own_identity.unwrap().verified);
}

#[test]
fn test_get_user_devices() {
    let store = store();
    let own = Some(UserIdentityData::Own(own_identity()));
    let user_devices = store.get_user_devices(
        devices("@bob:example.org", &["B2", "B1"]),
        &own,
        Some(other_identity("@bob:example.org")),
    );
    assert_eq!(user_devices.inner.len(), 2);
    assert_eq!(user_devices.inner.key_at(0).as_str(), "B1");
    assert!(user_devices.own_identity.is_some());
    assert!(user_devices.device_owner_identity.is_some());
}

#[test]
fn test_get_device_from_curve_key() {
    let store = store();
    let mut inner = SortedMap::new();
    for (id, key) in [("B3", Some("k2")), ("B1", None), ("B2", Some("k2")), ("B4", Some("k4"))] {
        let mut data = device("@bob:example.org", id, None);
        data.curve25519_key = key.map(|k| k.to_owned());
        inner.insert(id.to_owned(), data);
    }
    let own = Some(UserIdentityData::Own(own_identity()));
    let devices = store.get_user_devices(inner, &own, Some(other_identity("@bob:example.org")));

    let found = store.get_device_from_curve_key(&devices, "k2").unwrap();
    assert_eq!(found.inner.device_id, "B2");
    assert!(found.own_identity.is_some());
    assert!(found.device_owner_identity.is_some());
    assert_eq!(store.get_device_from_curve_key(&devices, "k4").unwrap().inner.device_id, "B4");
    assert!(store.get_device_from_curve_key(&devices, "k1").is_none());
}

struct Leases {
    held: RefCell<Option<(String, String)>>,
}

impl LeaseStore for Leases {
    fn try_take_leased_lock(
        &self,
        _lease_duration_ms: u32,
        key: &str,
        holder: &str,
    ) -> Result<bool, CryptoStoreError> {
        if key.is_empty() {
            return Err(CryptoStoreError::Backend("no key".to_owned()));
        }
        let mut held = self.held.borrow_mut();
        match &*held {
            Some((k, h)) if k == key && h != holder => Ok(false),
            _ => {
                *held = Some((key.to_owned(), holder.to_owned()));
                Ok(true)
            }
        }
    }
}

#[test]
fn test_lockable_store_hands_on_what_the_backend_answers() {
    let store = LockableCryptoStore(Leases { held: RefCell::new(None) });
    assert!(store.try_lock(100, "lock", "first").unwrap());
    assert!(!store.try_lock(100, "lock", "second").unwrap());
    assert!(store.try_lock(100, "lock", "first").unwrap());
    assert!(matches!(store.try_lock(100, "", "first"), Err(CryptoStoreError::Backend(_))));
}
