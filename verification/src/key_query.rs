//! Tracking of the users whose device lists are followed, and of those among
//! them whose list is out of date and awaits a key query.
//!
//! A user is untracked, tracked and clean, or tracked and dirty. Reading the
//! store and writing to it is left to the caller: an operation that changes
//! what is to be persisted returns the records to save.

use crate::caches::{
    after_draw, after_insert_user, after_maybe_remove_user, after_register, consistent,
    registers_anew, resolves, waiter_completed, KeyQueryState, KeyQueryWaiter, SequenceNumber,
    StoreCache, TrackedUser, UsersForKeyQuery,
};
use vstd::prelude::*;

verus! {

/// The model of what is tracked.
pub struct TrackingState {
    /// The users whose device lists are followed.
    pub followed: Set<Seq<char>>,
    /// The users awaiting a key query.
    pub query: KeyQueryState,
}

/// The state of one user.
pub enum UserState {
    /// The user's device list is not followed.
    Untracked,
    /// The user's device list is followed and up to date.
    TrackedClean,
    /// The user's device list is followed and awaits a key query.
    TrackedDirty,
}

impl TrackingState {
    /// The one state that `user` is in.
    pub open spec fn state_of(self, user: Seq<char>) -> UserState {
        if !self.followed.contains(user) {
            UserState::Untracked
        } else if self.query.dirty.dom().contains(user) {
            UserState::TrackedDirty
        } else {
            UserState::TrackedClean
        }
    }
}

/// A tracking state together with the records to persist: each a user and
/// whether the user is dirty.
pub struct Outcome {
    /// The state.
    pub state: TrackingState,
    /// The records to persist, in the order in which they came about.
    pub updates: Seq<(Seq<char>, bool)>,
}

/// The models of a list of users.
pub open spec fn user_views(users: Seq<String>) -> Seq<Seq<char>> {
    users.map_values(|u: String| u@)
}

/// The models of a list of records to persist.
pub open spec fn update_views(updates: Seq<(String, bool)>) -> Seq<(Seq<char>, bool)> {
    updates.map_values(|u: (String, bool)| (u.0@, u.1))
}

/// The models of a list of tracked users as the store records them.
pub open spec fn tracked_user_views(users: Seq<TrackedUser>) -> Seq<(Seq<char>, bool)> {
    users.map_values(|u: TrackedUser| (u.user_id@, u.dirty))
}

/// Loading one stored record: the user is tracked, and dirty where the
/// record says so.
pub open spec fn load_one(t: TrackingState, user: Seq<char>, dirty: bool) -> TrackingState {
    TrackingState {
        followed: t.followed.insert(user),
        query: if dirty {
            after_insert_user(t.query, user)
        } else {
            t.query
        },
    }
}

/// Loading the stored records, one after the other.
pub open spec fn load_all(t: TrackingState, users: Seq<(Seq<char>, bool)>) -> TrackingState
    decreases users.len(),
{
    if users.len() == 0 {
        t
    } else {
        load_one(load_all(t, users.drop_last()), users.last().0, users.last().1)
    }
}

/// What is tracked once the stored records have been asked for: they are
/// loaded where they were not loaded before, and ignored where they were.
pub open spec fn synced_state(
    loaded: bool,
    t: TrackingState,
    users: Seq<(Seq<char>, bool)>,
) -> TrackingState {
    if loaded {
        t
    } else {
        load_all(t, users)
    }
}

/// Starting to track one user: a user that is not tracked becomes tracked
/// and dirty, and a dirty record is to be persisted; a tracked user is left
/// as it is.
pub open spec fn track_one(o: Outcome, user: Seq<char>) -> Outcome {
    if o.state.followed.contains(user) {
        o
    } else {
        Outcome {
            state: TrackingState {
                followed: o.state.followed.insert(user),
                query: after_insert_user(o.state.query, user),
            },
            updates: o.updates.push((user, true)),
        }
    }
}

/// Starting to track a list of users, one after the other.
pub open spec fn track_all(t: TrackingState, users: Seq<Seq<char>>) -> Outcome
    decreases users.len(),
{
    if users.len() == 0 {
        Outcome { state: t, updates: Seq::empty() }
    } else {
        track_one(track_all(t, users.drop_last()), users.last())
    }
}

/// A notice that one user's devices changed: a tracked user becomes dirty,
/// and a dirty record is to be persisted; an untracked user is ignored.
pub open spec fn change_one(o: Outcome, user: Seq<char>) -> Outcome {
    if o.state.followed.contains(user) {
        Outcome {
            state: TrackingState { query: after_insert_user(o.state.query, user), ..o.state },
            updates: o.updates.push((user, true)),
        }
    } else {
        o
    }
}

/// Notices that the devices of a list of users changed, one after the other.
pub open spec fn change_all(t: TrackingState, users: Seq<Seq<char>>) -> Outcome
    decreases users.len(),
{
    if users.len() == 0 {
        Outcome { state: t, updates: Seq::empty() }
    } else {
        change_one(change_all(t, users.drop_last()), users.last())
    }
}

/// The response to a key query, drawn under `sequence`, for one user: a
/// tracked user becomes clean unless it was marked dirty at or after
/// `sequence`, and a record of what it is now is to be persisted; an
/// untracked user is ignored.
pub open spec fn settle_one(o: Outcome, user: Seq<char>, sequence: u64) -> Outcome {
    if o.state.followed.contains(user) {
        Outcome {
            state: TrackingState {
                query: after_maybe_remove_user(o.state.query, user, sequence),
                ..o.state
            },
            updates: o.updates.push((user, !resolves(o.state.query, user, sequence))),
        }
    } else {
        o
    }
}

/// The response to a key query for a list of users, one after the other.
pub open spec fn settle_all(t: TrackingState, users: Seq<Seq<char>>, sequence: u64) -> Outcome
    decreases users.len(),
{
    if users.len() == 0 {
        Outcome { state: t, updates: Seq::empty() }
    } else {
        settle_one(settle_all(t, users.drop_last(), sequence), users.last(), sequence)
    }
}

/// What a wait for a key query came to.
#[derive(Clone, Copy, Debug, PartialEq, Eq, Structural)]
pub enum UserKeyQueryResult {
    /// A query was pending and has been resolved.
    WasPending,
    /// No query was pending.
    WasNotPending,
    /// A query was pending and was not resolved in time: devices may be
    /// missing.
    TimeoutExpired,
}

/// What a parked waiter is woken by.
#[derive(Clone, Copy, Debug, PartialEq, Eq, Structural)]
pub enum WaitEvent {
    /// The responses to a key query have been applied.
    Notified,
    /// The time allowed for the wait has passed.
    TimeoutElapsed,
}

/// How far a wait has come.
#[derive(Debug)]
pub enum WaitProgress {
    /// The wait is over.
    Finished(UserKeyQueryResult),
    /// The waiter is registered and has to be parked until the next event.
    Parked(KeyQueryWaiter),
}

/// The model of [`WaitProgress`].
pub enum WaitProgressView {
    Finished(UserKeyQueryResult),
    Parked(Seq<char>, u64),
}

impl View for WaitProgress {
    type V = WaitProgressView;

    open spec fn view(&self) -> WaitProgressView {
        match self {
            WaitProgress::Finished(r) => WaitProgressView::Finished(*r),
            WaitProgress::Parked(w) => WaitProgressView::Parked(w.user@, w.id),
        }
    }
}

/// Where a wait for `user` starts, in the state after the request.
pub open spec fn wait_start(s: KeyQueryState, user: Seq<char>) -> WaitProgressView {
    if s.dirty.dom().contains(user) {
        WaitProgressView::Parked(user, after_register(s, user).waiters[user])
    } else {
        WaitProgressView::Finished(UserKeyQueryResult::WasNotPending)
    }
}

/// Where a parked wait goes on an event.
pub open spec fn wait_resume(s: KeyQueryState, user: Seq<char>, id: u64, event: WaitEvent) -> WaitProgressView {
    match event {
        WaitEvent::TimeoutElapsed => WaitProgressView::Finished(UserKeyQueryResult::TimeoutExpired),
        WaitEvent::Notified => if waiter_completed(s, user, id) {
            WaitProgressView::Finished(UserKeyQueryResult::WasPending)
        } else {
            WaitProgressView::Parked(user, id)
        },
    }
}

/// The manager of pending key queries.
pub struct KeyQueryManager {
    users_for_key_query: UsersForKeyQuery,
}

impl KeyQueryManager {
    /// The invariant of the manager.
    pub closed spec fn wf(&self) -> bool {
        self.users_for_key_query.wf()
    }

    /// The model of the manager.
    pub closed spec fn view(&self) -> KeyQueryState {
        self.users_for_key_query@
    }

    /// The dirty users, in key order.
    pub closed spec fn dirty_users(&self) -> Seq<Seq<char>> {
        self.users_for_key_query.dirty_users()
    }

    /// A manager for which nobody is dirty and nobody waits.
    pub fn new() -> (r: Self)
        ensures
            r.wf(),
            r@ == (KeyQueryState { clock: 0, dirty: Map::empty(), waiters: Map::empty() }),
    {
        KeyQueryManager { users_for_key_query: UsersForKeyQuery::new() }
    }

    /// Whether the clock of the manager can still advance, which drawing a
    /// batch and registering a waiter need.
    pub fn can_advance(&self) -> (r: bool)
        ensures
            r == (self@.clock < u64::MAX),
    {
        self.users_for_key_query.can_advance()
    }

    /// Whether a wait for `user` can be started: it can unless it would
    /// register a new waiter while the clock is at its limit.
    pub fn can_start_wait(&self, user: &str) -> (r: bool)
        requires
            self.wf(),
        ensures
            r == (registers_anew(self@, user@) ==> self@.clock < u64::MAX),
    {
        self.users_for_key_query.can_start_wait(user)
    }

    /// In every state of a manager no user was marked later than the clock
    /// reads, no waiter was registered later than it reads, and only dirty
    /// users have a waiter.
    pub proof fn lemma_wf(&self)
        requires
            self.wf(),
        ensures
            consistent(self@),
    {
        self.users_for_key_query.lemma_wf();
    }

    /// Fills the cache with the tracked users that were read from the store,
    /// unless the cache has been filled before; says whether it filled it.
    ///
    /// The caller reads the store only where the cache says that the users
    /// are not loaded. The flag is looked at once more here, so that of
    /// several callers who found it unset only the first fills the cache: for
    /// the others nothing changes, whatever they bring.
    pub fn ensure_sync_tracked_users(
        &mut self,
        cache: &mut StoreCache,
        tracked_users: &Vec<TrackedUser>,
    ) -> (filled: bool)
        requires
            old(self).wf(),
            old(cache).wf(),
        ensures
            final(self).wf(),
            final(cache).wf(),
            filled == !old(cache)@.loaded_tracked_users,
            final(cache)@.loaded_tracked_users,
            final(cache)@.account == old(cache)@.account,
            !filled ==> final(cache)@ == old(cache)@ && final(self)@ == old(self)@,
            (TrackingState { followed: final(cache)@.tracked_users, query: final(self)@ })
                == synced_state(
                old(cache)@.loaded_tracked_users,
                TrackingState { followed: old(cache)@.tracked_users, query: old(self)@ },
                tracked_user_views(tracked_users@),
            ),
    {
        if cache.loaded_tracked_users() {
            return false;
        }
        let ghost start = TrackingState { followed: cache@.tracked_users, query: self@ };
        let ghost records = tracked_user_views(tracked_users@);
        let mut i: usize = 0;
        proof {
            assert(records.take(0) =~= Seq::<(Seq<char>, bool)>::empty());
        }
        while i < tracked_users.len()
            invariant
                i <= tracked_users@.len(),
                records == tracked_user_views(tracked_users@),
                self.wf(),
                cache.wf(),
                cache@.loaded_tracked_users == old(cache)@.loaded_tracked_users,
                cache@.account == old(cache)@.account,
                (TrackingState { followed: cache@.tracked_users, query: self@ }) == load_all(
                    start,
                    records.take(i as int),
                ),
            decreases tracked_users@.len() - i,
        {
            let user = &tracked_users[i];
            proof {
                assert(records.take(i as int + 1).drop_last() =~= records.take(i as int));
                assert(records.take(i as int + 1).last() == (user.user_id@, user.dirty));
            }
            cache.track(user.user_id.as_str());
            if user.dirty {
                self.users_for_key_query.insert_user(user.user_id.as_str());
            }
            i += 1;
        }
        proof {
            assert(records.take(tracked_users@.len() as int) =~= records);
        }
        cache.set_loaded_tracked_users();
        true
    }

    /// Ties the manager to a cache whose tracked users are loaded.
    pub fn synced(self, cache: StoreCache, tracked_users: &Vec<TrackedUser>) -> (r:
        SyncedKeyQueryManager)
        requires
            self.wf(),
            cache.wf(),
        ensures
            r.wf(),
            r.cache_view().account == cache@.account,
            r@ == synced_state(
                cache@.loaded_tracked_users,
                TrackingState { followed: cache@.tracked_users, query: self@ },
                tracked_user_views(tracked_users@),
            ),
    {
        let mut manager = self;
        let mut cache = cache;
        manager.ensure_sync_tracked_users(&mut cache, tracked_users);
        SyncedKeyQueryManager { cache, manager }
    }

    /// Starts a wait for the key query of `user`.
    ///
    /// Where no query is pending for the user, the wait is over at once.
    /// Otherwise the caller holds a registered waiter when this returns, and
    /// parks it: no response that is applied from now on can pass unnoticed,
    /// because the waiter is resolved by the state and not by the wake-up.
    /// Only a waiter that is newly registered needs the clock to advance.
    pub fn wait_if_user_key_query_pending(
        &mut self,
        cache: &mut StoreCache,
        tracked_users: &Vec<TrackedUser>,
        user: &str,
    ) -> (r: WaitProgress)
        requires
            old(self).wf(),
            old(cache).wf(),
            registers_anew(
                synced_state(
                    old(cache)@.loaded_tracked_users,
                    TrackingState { followed: old(cache)@.tracked_users, query: old(self)@ },
                    tracked_user_views(tracked_users@),
                ).query,
                user@,
            ) ==> old(self)@.clock < u64::MAX,
        ensures
            final(self).wf(),
            final(cache).wf(),
            final(cache)@.loaded_tracked_users,
            ({
                let synced = synced_state(
                    old(cache)@.loaded_tracked_users,
                    TrackingState { followed: old(cache)@.tracked_users, query: old(self)@ },
                    tracked_user_views(tracked_users@),
                );
                &&& final(cache)@.tracked_users == synced.followed
                &&& r@ == wait_start(synced.query, user@)
                &&& final(self)@ == after_register(synced.query, user@)
            }),
    {
        self.ensure_sync_tracked_users(cache, tracked_users);
        proof {
            lemma_load_keeps_clock(
                TrackingState { followed: old(cache)@.tracked_users, query: old(self)@ },
                tracked_user_views(tracked_users@),
            );
        }
        match self.users_for_key_query.maybe_register_waiting_task(user) {
            None => WaitProgress::Finished(UserKeyQueryResult::WasNotPending),
            Some(waiter) => WaitProgress::Parked(waiter),
        }
    }

    /// Goes on with a parked wait after an event.
    ///
    /// When the time is up the wait ends as timed out. After a wake-up it
    /// ends where the waiter has been resolved, and the waiter is parked
    /// again where it has not.
    pub fn resume_wait(&self, waiter: KeyQueryWaiter, event: WaitEvent) -> (r: WaitProgress)
        requires
            self.wf(),
        ensures
            r@ == wait_resume(self@, waiter.user@, waiter.id, event),
    {
        match event {
            WaitEvent::TimeoutElapsed => WaitProgress::Finished(UserKeyQueryResult::TimeoutExpired),
            WaitEvent::Notified => {
                if self.users_for_key_query.is_completed(&waiter) {
                    WaitProgress::Finished(UserKeyQueryResult::WasPending)
                } else {
                    WaitProgress::Parked(waiter)
                }
            },
        }
    }
}

/// Loading stored records leaves the clock as it was.
pub proof fn lemma_load_keeps_clock(t: TrackingState, users: Seq<(Seq<char>, bool)>)
    ensures
        load_all(t, users).query.clock == t.query.clock,
    decreases users.len(),
{
    if users.len() > 0 {
        lemma_load_keeps_clock(t, users.drop_last());
    }
}

/// A key-query manager together with the cache that it tracks users in, the
/// tracked users being loaded.
pub struct SyncedKeyQueryManager {
    cache: StoreCache,
    manager: KeyQueryManager,
}

impl SyncedKeyQueryManager {
    /// The invariant: both parts are well formed, and the tracked users are
    /// loaded.
    pub closed spec fn wf(&self) -> bool {
        &&& self.cache.wf()
        &&& self.manager.wf()
        &&& self.cache@.loaded_tracked_users
    }

    /// The model of what is tracked.
    pub closed spec fn view(&self) -> TrackingState {
        TrackingState { followed: self.cache@.tracked_users, query: self.manager@ }
    }

    /// The model of the cache.
    pub closed spec fn cache_view(&self) -> crate::caches::StoreCacheView {
        self.cache@
    }

    /// The tracked users, in key order.
    pub closed spec fn tracked_user_list(&self) -> Seq<Seq<char>> {
        self.cache.tracked_user_list()
    }

    /// The dirty users, in key order.
    pub closed spec fn dirty_users(&self) -> Seq<Seq<char>> {
        self.manager.dirty_users()
    }

    /// In every state of a manager no user was marked later than the clock
    /// reads, no waiter was registered later than it reads, and only dirty
    /// users have a waiter.
    pub proof fn lemma_wf(&self)
        requires
            self.wf(),
        ensures
            consistent(self@.query),
    {
        self.manager.lemma_wf();
    }

    /// The two lists hold, in key order, what the model holds.
    pub proof fn lemma_lists(&self)
        requires
            self.wf(),
        ensures
            crate::sorted_map::strictly_sorted(self.tracked_user_list()),
            crate::sorted_map::strictly_sorted(self.dirty_users()),
            forall|u: Seq<char>| self@.followed.contains(u) <==> self.tracked_user_list().contains(u),
            forall|u: Seq<char>| self@.query.dirty.dom().contains(u) <==> self.dirty_users().contains(u),
    {
        self.cache.lemma_tracked_user_list();
        self.manager.users_for_key_query.lemma_dirty_users();
    }

    /// Gives the cache and the manager back.
    pub fn into_parts(self) -> (r: (StoreCache, KeyQueryManager))
        requires
            self.wf(),
        ensures
            r.0.wf(),
            r.1.wf(),
            r.0@ == self.cache_view(),
            r.0@.tracked_users == self@.followed,
            r.0@.loaded_tracked_users,
            r.1@ == self@.query,
    {
        (self.cache, self.manager)
    }

    /// Whether the clock of the manager can still advance, which drawing a
    /// batch needs.
    pub fn can_advance(&self) -> (r: bool)
        ensures
            r == (self@.query.clock < u64::MAX),
    {
        self.manager.can_advance()
    }

    /// Adds users to those whose device lists are followed. A user that was
    /// not tracked becomes dirty; a tracked user is left as it is. Returns the
    /// records to persist.
    pub fn update_tracked_users(&mut self, users: &Vec<String>) -> (store_updates: Vec<
        (String, bool),
    >)
        requires
            old(self).wf(),
        ensures
            final(self).wf(),
            final(self).cache_view().account == old(self).cache_view().account,
            final(self)@ == track_all(old(self)@, user_views(users@)).state,
            update_views(store_updates@) == track_all(old(self)@, user_views(users@)).updates,
    {
        let mut store_updates: Vec<(String, bool)> = Vec::new();
        let ghost start = self@;
        let ghost all = user_views(users@);
        let mut i: usize = 0;
        proof {
            assert(all.take(0) =~= Seq::<Seq<char>>::empty());
            assert(update_views(store_updates@) =~= Seq::<(Seq<char>, bool)>::empty());
        }
        while i < users.len()
            invariant
                i <= users@.len(),
                all == user_views(users@),
                self.wf(),
                self.cache_view().account == old(self).cache_view().account,
                self@ == track_all(start, all.take(i as int)).state,
                update_views(store_updates@) == track_all(start, all.take(i as int)).updates,
            decreases users@.len() - i,
        {
            let user_id = &users[i];
            proof {
                assert(all.take(i as int + 1).drop_last() =~= all.take(i as int));
                assert(all.take(i as int + 1).last() == user_id@);
            }
            let ghost before = update_views(store_updates@);
            if self.cache.track(user_id.as_str()) {
                self.manager.users_for_key_query.insert_user(user_id.as_str());
                store_updates.push((user_id.clone(), true));
                proof {
                    assert(update_views(store_updates@) =~= before.push((user_id@, true)));
                }
            } else {
                proof {
                    assert(self@.followed =~= track_all(start, all.take(i as int)).state.followed);
                }
            }
            i += 1;
        }
        proof {
            assert(all.take(users@.len() as int) =~= all);
        }
        store_updates
    }

    /// Takes notice that the devices of the given users changed. A tracked
    /// user becomes dirty; a user that is not tracked is ignored. Returns the
    /// records to persist.
    pub fn mark_tracked_users_as_changed(&mut self, users: &Vec<String>) -> (store_updates: Vec<
        (String, bool),
    >)
        requires
            old(self).wf(),
        ensures
            final(self).wf(),
            final(self).cache_view() == old(self).cache_view(),
            final(self)@ == change_all(old(self)@, user_views(users@)).state,
            update_views(store_updates@) == change_all(old(self)@, user_views(users@)).updates,
    {
        let mut store_updates: Vec<(String, bool)> = Vec::new();
        let ghost start = self@;
        let ghost all = user_views(users@);
        let mut i: usize = 0;
        proof {
            assert(all.take(0) =~= Seq::<Seq<char>>::empty());
            assert(update_views(store_updates@) =~= Seq::<(Seq<char>, bool)>::empty());
        }
        while i < users.len()
            invariant
                i <= users@.len(),
                all == user_views(users@),
                self.wf(),
                self.cache_view() == old(self).cache_view(),
                self@ == change_all(start, all.take(i as int)).state,
                update_views(store_updates@) == change_all(start, all.take(i as int)).updates,
            decreases users@.len() - i,
        {
            let user_id = &users[i];
            proof {
                assert(all.take(i as int + 1).drop_last() =~= all.take(i as int));
                assert(all.take(i as int + 1).last() == user_id@);
            }
            let ghost before = update_views(store_updates@);
            if self.cache.is_tracked(user_id.as_str()) {
                self.manager.users_for_key_query.insert_user(user_id.as_str());
                store_updates.push((user_id.clone(), true));
                proof {
                    assert(update_views(store_updates@) =~= before.push((user_id@, true)));
                }
            }
            i += 1;
        }
        proof {
            assert(all.take(users@.len() as int) =~= all);
        }
        store_updates
    }

    /// Applies the response to a key query that was drawn under
    /// `sequence_number`. A tracked user among `users` becomes clean, unless
    /// it was marked dirty at or after that number: then it stays dirty. A
    /// user that is not tracked is ignored. Returns the records to persist;
    /// once they are persisted the caller wakes all parked waiters.
    pub fn mark_tracked_users_as_up_to_date(
        &mut self,
        users: &Vec<String>,
        sequence_number: SequenceNumber,
    ) -> (store_updates: Vec<(String, bool)>)
        requires
            old(self).wf(),
        ensures
            final(self).wf(),
            final(self).cache_view() == old(self).cache_view(),
            final(self)@ == settle_all(old(self)@, user_views(users@), sequence_number.value).state,
            update_views(store_updates@) == settle_all(
                old(self)@,
                user_views(users@),
                sequence_number.value,
            ).updates,
    {
        let mut store_updates: Vec<(String, bool)> = Vec::new();
        let ghost start = self@;
        let ghost all = user_views(users@);
        let ghost seq = sequence_number.value;
        let mut i: usize = 0;
        proof {
            assert(all.take(0) =~= Seq::<Seq<char>>::empty());
            assert(update_views(store_updates@) =~= Seq::<(Seq<char>, bool)>::empty());
        }
        while i < users.len()
            invariant
                i <= users@.len(),
                all == user_views(users@),
                seq == sequence_number.value,
                self.wf(),
                self.cache_view() == old(self).cache_view(),
                self@ == settle_all(start, all.take(i as int), seq).state,
                update_views(store_updates@) == settle_all(start, all.take(i as int), seq).updates,
            decreases users@.len() - i,
        {
            let user_id = &users[i];
            proof {
                assert(all.take(i as int + 1).drop_last() =~= all.take(i as int));
                assert(all.take(i as int + 1).last() == user_id@);
            }
            let ghost before = update_views(store_updates@);
            if self.cache.is_tracked(user_id.as_str()) {
                let clean = self.manager.users_for_key_query.maybe_remove_user(
                    user_id.as_str(),
                    sequence_number,
                );
                store_updates.push((user_id.clone(), !clean));
                proof {
                    assert(update_views(store_updates@) =~= before.push((user_id@, !clean)));
                }
            }
            i += 1;
        }
        proof {
            assert(all.take(users@.len() as int) =~= all);
        }
        store_updates
    }

    /// Draws the users that a key query is to ask for: all dirty users, in
    /// key order, together with the sequence number to apply the response
    /// under.
    pub fn users_for_key_query(&mut self) -> (r: (Vec<String>, SequenceNumber))
        requires
            old(self).wf(),
            old(self)@.query.clock < u64::MAX,
        ensures
            final(self).wf(),
            final(self).cache_view() == old(self).cache_view(),
            final(self)@ == (TrackingState { query: after_draw(old(self)@.query), ..old(self)@ }),
            r.1.value == old(self)@.query.clock + 1,
            user_views(r.0@) == old(self).dirty_users(),
    {
        let r = self.manager.users_for_key_query.users_for_key_query();
        proof {
            assert(user_views(r.0@) =~= old(self).dirty_users());
        }
        r
    }

    /// The users whose device lists are followed, in key order.
    pub fn tracked_users(&self) -> (r: Vec<String>)
        requires
            self.wf(),
        ensures
            user_views(r@) == self.tracked_user_list(),
    {
        let r = self.cache.tracked_users();
        proof {
            assert(user_views(r@) =~= self.tracked_user_list());
        }
        r
    }

    /// Tracks `user` and marks it dirty, whether or not it was tracked.
    /// Returns the record to persist.
    pub fn mark_user_as_changed(&mut self, user: &str) -> (store_updates: Vec<(String, bool)>)
        requires
            old(self).wf(),
        ensures
            final(self).wf(),
            final(self).cache_view().account == old(self).cache_view().account,
            final(self)@ == (TrackingState {
                followed: old(self)@.followed.insert(user@),
                query: after_insert_user(old(self)@.query, user@),
            }),
            update_views(store_updates@) == seq![(user@, true)],
    {
        self.manager.users_for_key_query.insert_user(user);
        self.cache.track(user);
        let mut store_updates: Vec<(String, bool)> = Vec::new();
        store_updates.push((user.to_owned(), true));
        proof {
            assert(update_views(store_updates@) =~= seq![(user@, true)]);
        }
        store_updates
    }
}

/// The tracked users are loaded once.
///
/// Once the stored records have been asked for, the users count as loaded;
/// asking again, with whatever records, leaves what is tracked as the first
/// time left it. So of two callers who ask, both see what the first loaded.
pub proof fn lemma_load_happens_once(
    loaded: bool,
    t: TrackingState,
    first: Seq<(Seq<char>, bool)>,
    second: Seq<(Seq<char>, bool)>,
)
    ensures
        synced_state(true, synced_state(loaded, t, first), second) == synced_state(loaded, t, first),
{
}

/// Starting to track the single user `user`.
pub proof fn lemma_track_single(t: TrackingState, user: Seq<char>)
    ensures
        track_all(t, seq![user]) == track_one(Outcome { state: t, updates: Seq::empty() }, user),
        change_all(t, seq![user]) == change_one(Outcome { state: t, updates: Seq::empty() }, user),
        forall|sequence: u64|
            settle_all(t, seq![user], sequence) == settle_one(
                Outcome { state: t, updates: Seq::empty() },
                user,
                sequence,
            ),
{
    let users = seq![user];
    assert(users.drop_last() =~= Seq::<Seq<char>>::empty());
    assert(users.last() == user);
    assert(track_all(t, users.drop_last()) == Outcome { state: t, updates: Seq::empty() });
    assert(change_all(t, users.drop_last()) == Outcome { state: t, updates: Seq::empty() });
    assert forall|sequence: u64|
        settle_all(t, seq![user], sequence) == settle_one(
            Outcome { state: t, updates: Seq::empty() },
            user,
            sequence,
        ) by {
        assert(settle_all(t, users.drop_last(), sequence) == Outcome {
            state: t,
            updates: Seq::empty(),
        });
    }
}

/// A user that was not tracked is dirty after it was added, and exactly one
/// record, a dirty one for that user, is to be persisted.
pub proof fn lemma_new_user_is_dirty(t: TrackingState, user: Seq<char>)
    requires
        t.state_of(user) is Untracked,
    ensures
        track_all(t, seq![user]).state.state_of(user) is TrackedDirty,
        track_all(t, seq![user]).updates == seq![(user, true)],
{
    lemma_track_single(t, user);
    assert(Seq::<(Seq<char>, bool)>::empty().push((user, true)) =~= seq![(user, true)]);
}

/// A notice of changed devices for a user that is not tracked changes
/// nothing: the user stays untracked and no record is to be persisted.
pub proof fn lemma_change_of_untracked_user_is_ignored(t: TrackingState, user: Seq<char>)
    requires
        t.state_of(user) is Untracked,
    ensures
        change_all(t, seq![user]).state == t,
        change_all(t, seq![user]).updates == Seq::<(Seq<char>, bool)>::empty(),
{
    lemma_track_single(t, user);
}

/// A user that is marked dirty after a batch was drawn stays dirty when the
/// response to that batch is applied.
///
/// For a tracked user: draw a batch, then take notice that the user's
/// devices changed, then apply the response under the number of the batch.
/// The user is dirty afterwards, and the record to persist says so.
pub proof fn lemma_late_change_survives_response(t: TrackingState, user: Seq<char>)
    requires
        t.followed.contains(user),
        t.query.clock < u64::MAX,
    ensures
        ({
            let sequence = (t.query.clock + 1) as u64;
            let drawn = TrackingState { query: after_draw(t.query), ..t };
            let changed = change_all(drawn, seq![user]).state;
            let settled = settle_all(changed, seq![user], sequence);
            &&& settled.state.state_of(user) is TrackedDirty
            &&& settled.updates == seq![(user, true)]
        }),
{
    let sequence = (t.query.clock + 1) as u64;
    let drawn = TrackingState { query: after_draw(t.query), ..t };
    lemma_track_single(drawn, user);
    let changed = change_all(drawn, seq![user]).state;
    lemma_track_single(changed, user);
    assert(Seq::<(Seq<char>, bool)>::empty().push((user, true)) =~= seq![(user, true)]);
}

/// A user that is not marked dirty after a batch was drawn is clean when the
/// response to that batch is applied.
///
/// For a tracked user that was marked no later than the clock reads: draw a
/// batch, then apply the response under the number of the batch. The user is
/// clean afterwards, and the record to persist says so.
pub proof fn lemma_response_settles_user(t: TrackingState, user: Seq<char>)
    requires
        t.followed.contains(user),
        t.query.clock < u64::MAX,
        t.query.dirty.dom().contains(user) ==> t.query.dirty[user] <= t.query.clock,
    ensures
        ({
            let sequence = (t.query.clock + 1) as u64;
            let drawn = TrackingState { query: after_draw(t.query), ..t };
            let settled = settle_all(drawn, seq![user], sequence);
            &&& settled.state.state_of(user) is TrackedClean
            &&& settled.updates == seq![(user, false)]
        }),
{
    let drawn = TrackingState { query: after_draw(t.query), ..t };
    lemma_track_single(drawn, user);
    assert(Seq::<(Seq<char>, bool)>::empty().push((user, false)) =~= seq![(user, false)]);
}

/// A wait ends as pending once a batch was drawn and answered.
///
/// For a dirty user in a state that a manager can be in: start a wait, then
/// draw a batch, then apply the response to the user under the number of
/// that batch. The user is clean then, and a wake-up ends the wait as
/// pending. The clock must be able to advance for the registration, where
/// the waiter is new, and for the draw.
pub proof fn lemma_wait_ends_after_response(s: KeyQueryState, user: Seq<char>)
    requires
        consistent(s),
        s.dirty.dom().contains(user),
        registers_anew(s, user) ==> s.clock < u64::MAX,
        after_register(s, user).clock < u64::MAX,
    ensures
        ({
            let registered = after_register(s, user);
            let id = registered.waiters[user];
            let drawn = after_draw(registered);
            let settled = after_maybe_remove_user(drawn, user, drawn.clock);
            &&& wait_start(s, user) == WaitProgressView::Parked(user, id)
            &&& resolves(drawn, user, drawn.clock)
            &&& !settled.dirty.dom().contains(user)
            &&& wait_resume(settled, user, id, WaitEvent::Notified) == WaitProgressView::Finished(
                UserKeyQueryResult::WasPending,
            )
        }),
{
}

/// How a wait ends.
///
/// For a user without a pending query the wait is over at once, as not
/// pending, and nothing is registered: this needs nothing of the clock. For
/// a user with a pending query the waiter is parked, and the user is as
/// dirty as before; once a response has made the user clean, a wake-up ends
/// the wait as pending, whenever the response came after the registration;
/// while no response has made the user clean, a wake-up parks the waiter
/// again; and when the time is up the wait ends as timed out.
pub proof fn lemma_wait_semantics(s: KeyQueryState, user: Seq<char>, sequence: u64)
    ensures
        !s.dirty.dom().contains(user) ==> wait_start(s, user) == WaitProgressView::Finished(
            UserKeyQueryResult::WasNotPending,
        ) && after_register(s, user) == s,
        s.dirty.dom().contains(user) ==> ({
            let registered = after_register(s, user);
            let id = registered.waiters[user];
            let settled = after_maybe_remove_user(registered, user, sequence);
            &&& wait_start(s, user) == WaitProgressView::Parked(user, id)
            &&& registered.dirty == s.dirty
            &&& wait_resume(registered, user, id, WaitEvent::Notified) == WaitProgressView::Parked(
                user,
                id,
            )
            &&& wait_resume(registered, user, id, WaitEvent::TimeoutElapsed)
                == WaitProgressView::Finished(UserKeyQueryResult::TimeoutExpired)
            &&& resolves(registered, user, sequence) ==> wait_resume(
                settled,
                user,
                id,
                WaitEvent::Notified,
            ) == WaitProgressView::Finished(UserKeyQueryResult::WasPending)
            &&& !resolves(registered, user, sequence) ==> wait_resume(
                settled,
                user,
                id,
                WaitEvent::Notified,
            ) == WaitProgressView::Parked(user, id)
        }),
{
}

} // verus!
