use crypto_store::caches::{SequenceNumber, StoreCache, TrackedUser, UsersForKeyQuery};
use crypto_store::key_query::{
    KeyQueryManager, SyncedKeyQueryManager, UserKeyQueryResult, WaitEvent, WaitProgress,
};

fn users(names: &[&str]) -> Vec<String> {
    names.iter().map(|n| n.to_string()).collect()
}

fn synced() -> SyncedKeyQueryManager {
    KeyQueryManager::new().synced(StoreCache::new(), &Vec::new())
}

fn dirty_users(manager: &mut SyncedKeyQueryManager) -> Vec<String> {
    manager.users_for_key_query().0
}

#[test]
fn test_tracked_users_are_loaded_once() {
    let mut manager = KeyQueryManager::new();
    let mut cache = StoreCache::new();
    assert!(!cache.loaded_tracked_users());

    let first = vec![
        TrackedUser { user_id: "@alice:example.org".to_owned(), dirty: true },
        TrackedUser { user_id: "@bob:example.org".to_owned(), dirty: false },
    ];
    assert!(manager.ensure_sync_tracked_users(&mut cache, &first));
    assert!(cache.loaded_tracked_users());
    assert_eq!(cache.tracked_users(), users(&["@alice:example.org", "@bob:example.org"]));

    let second = vec![TrackedUser { user_id: "@carol:example.org".to_owned(), dirty: true }];
    assert!(!manager.ensure_sync_tracked_users(&mut cache, &second));
    assert_eq!(cache.tracked_users(), users(&["@alice:example.org", "@bob:example.org"]));

    let mut synced = manager.synced(cache, &second);
    assert_eq!(synced.tracked_users(), users(&["@alice:example.org", "@bob:example.org"]));
    assert_eq!(dirty_users(&mut synced), users(&["@alice:example.org"]));
}

#[test]
fn test_new_user_becomes_dirty_and_is_persisted_once() {
    let mut manager = synced();
    let updates = manager.update_tracked_users(&users(&["@alice:example.org"]));
    assert_eq!(updates, vec![("@alice:example.org".to_owned(), true)]);
    assert_eq!(manager.tracked_users(), users(&["@alice:example.org"]));
    assert_eq!(dirty_users(&mut manager), users(&["@alice:example.org"]));
}

#[test]
fn test_update_tracked_users_leaves_tracked_users_alone() {
    let mut manager = synced();
    manager.update_tracked_users(&users(&["@alice:example.org"]));
    let (_, sequence) = manager.users_for_key_query();
    manager.mark_tracked_users_as_up_to_date(&users(&["@alice:example.org"]), sequence);

    let updates =
        manager.update_tracked_users(&users(&["@alice:example.org", "@bob:example.org"]));
    assert_eq!(updates, vec![("@bob:example.org".to_owned(), true)]);
    assert_eq!(dirty_users(&mut manager), users(&["@bob:example.org"]));
}

#[test]
fn test_update_tracked_users_with_a_user_named_twice() {
    let mut manager = synced();
    let updates =
        manager.update_tracked_users(&users(&["@alice:example.org", "@alice:example.org"]));
    assert_eq!(updates, vec![("@alice:example.org".to_owned(), true)]);
}

#[test]
fn test_change_of_untracked_user_is_ignored() {
    let mut manager = synced();
    let updates = manager.mark_tracked_users_as_changed(&users(&["@alice:example.org"]));
    assert!(updates.is_empty());
    assert!(manager.tracked_users().is_empty());
    assert!(dirty_users(&mut manager).is_empty());
}

#[test]
fn test_change_of_tracked_user_marks_it_dirty() {
    let mut manager = synced();
    manager.update_tracked_users(&users(&["@alice:example.org", "@bob:example.org"]));
    let (_, sequence) = manager.users_for_key_query();
    manager.mark_tracked_users_as_up_to_date(
        &users(&["@alice:example.org", "@bob:example.org"]),
        sequence,
    );
    assert!(dirty_users(&mut manager).is_empty());

    let updates =
        manager.mark_tracked_users_as_changed(&users(&["@bob:example.org", "@carol:example.org"]));
    assert_eq!(updates, vec![("@bob:example.org".to_owned(), true)]);
    assert_eq!(dirty_users(&mut manager), users(&["@bob:example.org"]));
}

#[test]
fn test_response_makes_the_user_clean() {
    let mut manager = synced();
    manager.update_tracked_users(&users(&["@alice:example.org"]));
    let (batch, sequence) = manager.users_for_key_query();
    assert_eq!(batch, users(&["@alice:example.org"]));

    let updates = manager.mark_tracked_users_as_up_to_date(&batch, sequence);
    assert_eq!(updates, vec![("@alice:example.org".to_owned(), false)]);
    assert!(dirty_users(&mut manager).is_empty());
    assert_eq!(manager.tracked_users(), users(&["@alice:example.org"]));
}

#[test]
fn test_user_changed_after_the_batch_stays_dirty() {
    let mut manager = synced();
    manager.update_tracked_users(&users(&["@alice:example.org", "@bob:example.org"]));
    let (batch, sequence) = manager.users_for_key_query();

    manager.mark_tracked_users_as_changed(&users(&["@alice:example.org"]));

    let updates = manager.mark_tracked_users_as_up_to_date(&batch, sequence);
    assert_eq!(
        updates,
        vec![("@alice:example.org".to_owned(), true), ("@bob:example.org".to_owned(), false)]
    );
    assert_eq!(dirty_users(&mut manager), users(&["@alice:example.org"]));

    let (batch, sequence) = manager.users_for_key_query();
    let updates = manager.mark_tracked_users_as_up_to_date(&batch, sequence);
    assert_eq!(updates, vec![("@alice:example.org".to_owned(), false)]);
}

#[test]
fn test_response_for_an_untracked_user_is_ignored() {
    let mut manager = synced();
    let (_, sequence) = manager.users_for_key_query();
    let updates = manager.mark_tracked_users_as_up_to_date(&users(&["@alice:example.org"]), sequence);
    assert!(updates.is_empty());
}

#[test]
fn test_sequence_numbers_increase_with_every_batch() {
    let mut manager = synced();
    let (_, first) = manager.users_for_key_query();
    let (_, second) = manager.users_for_key_query();
    assert_eq!(first, SequenceNumber { value: 1 });
    assert_eq!(second, SequenceNumber { value: 2 });
    assert!(manager.can_advance());
}

#[test]
fn test_mark_user_as_changed_tracks_the_user() {
    let mut manager = synced();
    let updates = manager.mark_user_as_changed("@alice:example.org");
    assert_eq!(updates, vec![("@alice:example.org".to_owned(), true)]);
    assert_eq!(manager.tracked_users(), users(&["@alice:example.org"]));
    assert_eq!(dirty_users(&mut manager), users(&["@alice:example.org"]));
}

#[test]
fn test_users_come_in_key_order() {
    let mut manager = synced();
    manager.update_tracked_users(&users(&["@carol:x", "@alice:x", "@bob:x"]));
    assert_eq!(manager.tracked_users(), users(&["@alice:x", "@bob:x", "@carol:x"]));
    assert_eq!(dirty_users(&mut manager), users(&["@alice:x", "@bob:x", "@carol:x"]));
}

#[test]
fn test_into_parts_gives_the_state_back() {
    let mut manager = synced();
    manager.update_tracked_users(&users(&["@alice:example.org"]));
    let (cache, manager) = manager.into_parts();
    assert!(cache.loaded_tracked_users());
    assert!(cache.is_tracked("@alice:example.org"));
    let mut again = manager.synced(cache, &Vec::new());
    assert_eq!(dirty_users(&mut again), users(&["@alice:example.org"]));
}

#[test]
fn test_wait_for_a_user_without_pending_query() {
    let mut manager = KeyQueryManager::new();
    let mut cache = StoreCache::new();
    let progress =
        manager.wait_if_user_key_query_pending(&mut cache, &Vec::new(), "@alice:example.org");
    assert!(matches!(progress, WaitProgress::Finished(UserKeyQueryResult::WasNotPending)));
    assert!(cache.loaded_tracked_users());
}

#[test]
fn test_wait_ends_when_the_query_is_resolved() {
    let mut manager = KeyQueryManager::new();
    let mut cache = StoreCache::new();
    let stored = vec![TrackedUser { user_id: "@alice:example.org".to_owned(), dirty: true }];

    let waiter = match manager.wait_if_user_key_query_pending(&mut cache, &stored, "@alice:example.org")
    {
        WaitProgress::Parked(waiter) => waiter,
        WaitProgress::Finished(_) => panic!("a query is pending"),
    };
    assert_eq!(waiter.user, "@alice:example.org");

    let waiter = match manager.resume_wait(waiter, WaitEvent::Notified) {
        WaitProgress::Parked(waiter) => waiter,
        WaitProgress::Finished(_) => panic!("the query is not resolved yet"),
    };

    let mut synced = manager.synced(cache, &Vec::new());
    let (batch, sequence) = synced.users_for_key_query();
    synced.mark_tracked_users_as_up_to_date(&batch, sequence);
    let (_, manager) = synced.into_parts();

    assert!(matches!(
        manager.resume_wait(waiter, WaitEvent::Notified),
        WaitProgress::Finished(UserKeyQueryResult::WasPending)
    ));
}

#[test]
fn test_wait_can_be_started() {
    let mut queue = UsersForKeyQuery::new();
    assert!(queue.can_start_wait("@alice:example.org"));
    queue.insert_user("@alice:example.org");
    assert!(queue.can_start_wait("@alice:example.org"));
    queue.maybe_register_waiting_task("@alice:example.org").unwrap();
    assert!(queue.can_start_wait("@alice:example.org"));

    let manager = KeyQueryManager::new();
    assert!(manager.can_start_wait("@bob:example.org"));
    assert!(manager.can_advance());
}

#[test]
fn test_timed_out_user_is_still_dirty() {
    let mut manager = KeyQueryManager::new();
    let mut cache = StoreCache::new();
    let stored = vec![TrackedUser { user_id: "@alice:example.org".to_owned(), dirty: true }];
    let waiter = match manager.wait_if_user_key_query_pending(&mut cache, &stored, "@alice:example.org")
    {
        WaitProgress::Parked(waiter) => waiter,
        WaitProgress::Finished(_) => panic!("a query is pending"),
    };
    assert!(matches!(
        manager.resume_wait(waiter, WaitEvent::TimeoutElapsed),
        WaitProgress::Finished(UserKeyQueryResult::TimeoutExpired)
    ));
    let mut synced = manager.synced(cache, &Vec::new());
    assert_eq!(dirty_users(&mut synced), users(&["@alice:example.org"]));
}

#[test]
fn test_wait_times_out() {
    let mut manager = KeyQueryManager::new();
    let mut cache = StoreCache::new();
    let stored = vec![TrackedUser { user_id: "@alice:example.org".to_owned(), dirty: true }];
    let waiter = match manager.wait_if_user_key_query_pending(&mut cache, &stored, "@alice:example.org")
    {
        WaitProgress::Parked(waiter) => waiter,
        WaitProgress::Finished(_) => panic!("a query is pending"),
    };
    assert!(matches!(
        manager.resume_wait(waiter, WaitEvent::TimeoutElapsed),
        WaitProgress::Finished(UserKeyQueryResult::TimeoutExpired)
    ));
}

#[test]
fn test_waiters_of_one_user_share_a_registration() {
    let mut queue = UsersForKeyQuery::new();
    queue.insert_user("@alice:example.org");
    let first = queue.maybe_register_waiting_task("@alice:example.org").unwrap();
    let second = queue.maybe_register_waiting_task("@alice:example.org").unwrap();
    assert_eq!(first.id, second.id);
    assert!(queue.maybe_register_waiting_task("@bob:example.org").is_none());
    assert!(!queue.is_completed(&first));
}

#[test]
fn test_waiter_of_an_earlier_query_stays_resolved() {
    let mut queue = UsersForKeyQuery::new();
    queue.insert_user("@alice:example.org");
    let first = queue.maybe_register_waiting_task("@alice:example.org").unwrap();
    let (_, sequence) = queue.users_for_key_query();
    assert!(queue.maybe_remove_user("@alice:example.org", sequence));
    assert!(queue.is_completed(&first));

    queue.insert_user("@alice:example.org");
    let second = queue.maybe_register_waiting_task("@alice:example.org").unwrap();
    assert_ne!(first.id, second.id);
    assert!(queue.is_completed(&first));
    assert!(!queue.is_completed(&second));
}

#[test]
fn test_maybe_remove_user_keeps_a_user_marked_at_the_sequence() {
    let mut queue = UsersForKeyQuery::new();
    let (_, sequence) = queue.users_for_key_query();
    queue.insert_user("@alice:example.org");
    assert!(!queue.maybe_remove_user("@alice:example.org", sequence));
    assert!(queue.is_dirty("@alice:example.org"));
    assert!(queue.maybe_remove_user("@bob:example.org", sequence));
    let (_, later) = queue.users_for_key_query();
    assert!(queue.maybe_remove_user("@alice:example.org", later));
    assert!(!queue.is_dirty("@alice:example.org"));
}
