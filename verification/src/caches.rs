//! The in-process state of the store: the account slot, the tracked users,
//! and the users whose device lists are out of date.

use crate::sorted_map::SortedMap;
use crate::string_set::StringSet;
use vstd::prelude::*;

verus! {

/// A point on the clock of the key-query manager. A batch of users for a key
/// query is drawn under a sequence number, and the response to that query is
/// applied under the same number.
#[derive(Clone, Copy, Debug, PartialEq, Eq, Structural)]
pub struct SequenceNumber {
    /// The reading of the clock.
    pub value: u64,
}

/// A registration of interest in the key query of one user.
#[derive(Debug)]
pub struct KeyQueryWaiter {
    /// The user whose key query is awaited.
    pub user: String,
    /// What tells this registration from earlier ones of the same user.
    pub id: u64,
}

/// The model of the users awaiting a key query.
pub struct KeyQueryState {
    /// The reading of the clock.
    pub clock: u64,
    /// The dirty users, each with the reading at which it was last marked.
    pub dirty: Map<Seq<char>, u64>,
    /// The users with a registered waiter, each with the waiter's id.
    pub waiters: Map<Seq<char>, u64>,
}

/// The state after `user` is marked dirty.
pub open spec fn after_insert_user(s: KeyQueryState, user: Seq<char>) -> KeyQueryState {
    KeyQueryState { dirty: s.dirty.insert(user, s.clock), ..s }
}

/// Whether the response to a query drawn under `sequence` makes `user` clean:
/// it does unless the user was marked dirty at or after that reading.
pub open spec fn resolves(s: KeyQueryState, user: Seq<char>, sequence: u64) -> bool {
    s.dirty.dom().contains(user) ==> s.dirty[user] < sequence
}

/// The state after the response to a query drawn under `sequence` was
/// applied to `user`.
pub open spec fn after_maybe_remove_user(s: KeyQueryState, user: Seq<char>, sequence: u64) -> KeyQueryState {
    if resolves(s, user, sequence) {
        KeyQueryState { dirty: s.dirty.remove(user), waiters: s.waiters.remove(user), ..s }
    } else {
        s
    }
}

/// The state after a batch was drawn: the clock has advanced.
pub open spec fn after_draw(s: KeyQueryState) -> KeyQueryState {
    KeyQueryState { clock: (s.clock + 1) as u64, ..s }
}

/// The state after a wait for `user` was requested.
pub open spec fn after_register(s: KeyQueryState, user: Seq<char>) -> KeyQueryState {
    if !s.dirty.dom().contains(user) || s.waiters.dom().contains(user) {
        s
    } else {
        KeyQueryState {
            clock: (s.clock + 1) as u64,
            waiters: s.waiters.insert(user, (s.clock + 1) as u64),
            ..s
        }
    }
}

/// Whether a wait for `user` registers a new waiter: it does where the user
/// is dirty and has no waiter yet. Only then does the clock advance.
pub open spec fn registers_anew(s: KeyQueryState, user: Seq<char>) -> bool {
    s.dirty.dom().contains(user) && !s.waiters.dom().contains(user)
}

/// What holds of every state that a manager can be in: no user was marked
/// later than the clock reads, no waiter was registered later than it reads,
/// and only dirty users have a waiter.
pub open spec fn consistent(s: KeyQueryState) -> bool {
    &&& forall|u: Seq<char>| #[trigger] s.dirty.dom().contains(u) ==> s.dirty[u] <= s.clock
    &&& forall|u: Seq<char>| #[trigger]
        s.waiters.dom().contains(u) ==> s.waiters[u] <= s.clock && s.dirty.dom().contains(u)
}

/// Whether the registration `id` for `user` has been resolved: it has once
/// the state no longer holds it.
pub open spec fn waiter_completed(s: KeyQueryState, user: Seq<char>, id: u64) -> bool {
    !(s.waiters.dom().contains(user) && s.waiters[user] == id)
}

/// The clock never goes back: marking a user and applying a response leave
/// it as it is, a registration never lowers it, and every batch that is
/// drawn advances it, so that later batches have larger sequence numbers.
pub proof fn lemma_clock_only_advances(s: KeyQueryState, user: Seq<char>, sequence: u64)
    requires
        s.clock < u64::MAX,
    ensures
        after_insert_user(s, user).clock == s.clock,
        after_maybe_remove_user(s, user, sequence).clock == s.clock,
        after_register(s, user).clock >= s.clock,
        after_draw(s).clock > s.clock,
{
}

/// The users whose device lists are out of date, and those who wait for them.
pub struct UsersForKeyQuery {
    clock: u64,
    user_map: SortedMap<u64>,
    tasks_awaiting_key_query: SortedMap<u64>,
}

impl UsersForKeyQuery {
    /// The invariant: the maps are well formed, nothing was marked or
    /// registered later than the clock reads, and only dirty users have a
    /// waiter.
    pub closed spec fn wf(&self) -> bool {
        &&& self.user_map.wf()
        &&& self.tasks_awaiting_key_query.wf()
        &&& forall|u: Seq<char>| #[trigger]
            self.user_map@.dom().contains(u) ==> self.user_map@[u] <= self.clock
        &&& forall|u: Seq<char>| #[trigger]
            self.tasks_awaiting_key_query@.dom().contains(u) ==> self.tasks_awaiting_key_query@[u]
                <= self.clock && self.user_map@.dom().contains(u)
    }

    /// The model of the state.
    pub closed spec fn view(&self) -> KeyQueryState {
        KeyQueryState {
            clock: self.clock,
            dirty: self.user_map@,
            waiters: self.tasks_awaiting_key_query@,
        }
    }

    /// The dirty users, in key order.
    pub closed spec fn dirty_users(&self) -> Seq<Seq<char>> {
        self.user_map.keys()
    }

    /// The dirty users in key order are exactly the dirty users.
    pub proof fn lemma_dirty_users(&self)
        requires
            self.wf(),
        ensures
            crate::sorted_map::strictly_sorted(self.dirty_users()),
            forall|u: Seq<char>| self@.dirty.dom().contains(u) <==> self.dirty_users().contains(u),
    {
    }

    /// In a well-formed state nothing is later than the clock, and only dirty
    /// users have a waiter.
    pub proof fn lemma_wf(&self)
        requires
            self.wf(),
        ensures
            consistent(self@),
    {
    }

    /// A state in which nobody is dirty and nobody waits.
    pub fn new() -> (r: Self)
        ensures
            r.wf(),
            r@ == (KeyQueryState { clock: 0, dirty: Map::empty(), waiters: Map::empty() }),
    {
        UsersForKeyQuery {
            clock: 0,
            user_map: SortedMap::new(),
            tasks_awaiting_key_query: SortedMap::new(),
        }
    }

    /// Whether the clock can still advance.
    pub fn can_advance(&self) -> (r: bool)
        ensures
            r == (self@.clock < u64::MAX),
    {
        self.clock < u64::MAX
    }

    /// Whether a wait for `user` can be started: it can unless it would
    /// register a new waiter while the clock is at its limit.
    pub fn can_start_wait(&self, user: &str) -> (r: bool)
        requires
            self.wf(),
        ensures
            r == (registers_anew(self@, user@) ==> self@.clock < u64::MAX),
    {
        self.clock < u64::MAX || !self.user_map.contains_key(user)
            || self.tasks_awaiting_key_query.contains_key(user)
    }

    /// Whether `user` is dirty.
    pub fn is_dirty(&self, user: &str) -> (r: bool)
        requires
            self.wf(),
        ensures
            r == self@.dirty.dom().contains(user@),
    {
        self.user_map.contains_key(user)
    }

    /// Marks `user` dirty, at the present reading of the clock.
    pub fn insert_user(&mut self, user: &str)
        requires
            old(self).wf(),
        ensures
            final(self).wf(),
            final(self)@ == after_insert_user(old(self)@, user@),
    {
        let ghost before = self.user_map@;
        self.user_map.insert(user.to_owned(), self.clock);
        proof {
            assert forall|u: Seq<char>| #[trigger] self.user_map@.dom().contains(u) implies self.user_map@[u]
                <= self.clock by {
                if u != user@ {
                    assert(before.dom().contains(u));
                }
            }
        }
    }

    /// Applies the response to a query drawn under `query_sequence` to
    /// `user`; says whether the user is clean now. A user that was marked
    /// dirty at or after that reading stays dirty. A user that becomes clean
    /// loses its waiter, which thereby is resolved.
    pub fn maybe_remove_user(&mut self, user: &str, query_sequence: SequenceNumber) -> (clean: bool)
        requires
            old(self).wf(),
        ensures
            final(self).wf(),
            clean == resolves(old(self)@, user@, query_sequence.value),
            final(self)@ == after_maybe_remove_user(old(self)@, user@, query_sequence.value),
    {
        let ghost dirty_before = self.user_map@;
        let ghost waiters_before = self.tasks_awaiting_key_query@;
        let last_invalidation = match self.user_map.get(user) {
            Some(n) => Some(*n),
            None => None,
        };
        let removed = match last_invalidation {
            Some(marked) => {
                if marked >= query_sequence.value {
                    false
                } else {
                    self.user_map.remove(user);
                    true
                }
            },
            None => {
                proof {
                    assert(self.user_map@.remove(user@) =~= self.user_map@);
                }
                true
            },
        };
        if removed {
            self.tasks_awaiting_key_query.remove(user);
            proof {
                assert forall|u: Seq<char>| #[trigger]
                    self.user_map@.dom().contains(u) implies self.user_map@[u] <= self.clock by {
                    assert(dirty_before.dom().contains(u));
                }
                assert forall|u: Seq<char>| #[trigger]
                    self.tasks_awaiting_key_query@.dom().contains(u)
                    implies self.tasks_awaiting_key_query@[u] <= self.clock
                    && self.user_map@.dom().contains(u) by {
                    assert(waiters_before.dom().contains(u));
                }
            }
        }
        removed
    }

    /// Draws the batch of dirty users for a key query, together with the
    /// sequence number under which the response is to be applied. The clock
    /// advances with every batch, so later batches have larger numbers, and
    /// whoever is marked dirty from now on is marked at or after the number
    /// that is returned.
    pub fn users_for_key_query(&mut self) -> (r: (Vec<String>, SequenceNumber))
        requires
            old(self).wf(),
            old(self)@.clock < u64::MAX,
        ensures
            final(self).wf(),
            final(self)@ == after_draw(old(self)@),
            r.1.value == old(self)@.clock + 1,
            r.0@.len() == old(self).dirty_users().len(),
            forall|i: int| 0 <= i < r.0@.len() ==> (#[trigger] r.0@[i])@ == old(self).dirty_users()[i],
    {
        let mut users: Vec<String> = Vec::new();
        let mut i: usize = 0;
        while i < self.user_map.len()
            invariant
                self.wf(),
                *self == *old(self),
                i <= self.dirty_users().len(),
                users@.len() == i,
                forall|j: int| 0 <= j < i ==> (#[trigger] users@[j])@ == self.dirty_users()[j],
            decreases self.dirty_users().len() - i,
        {
            users.push(self.user_map.key_at(i).clone());
            i += 1;
        }
        self.clock = self.clock + 1;
        (users, SequenceNumber { value: self.clock })
    }

    /// Registers a waiter for the key query of `user`, or joins the one that
    /// is registered. Gives `None` where the user is not dirty: no query is
    /// pending then. Only a new registration needs the clock to advance.
    pub fn maybe_register_waiting_task(&mut self, user: &str) -> (r: Option<KeyQueryWaiter>)
        requires
            old(self).wf(),
            registers_anew(old(self)@, user@) ==> old(self)@.clock < u64::MAX,
        ensures
            final(self).wf(),
            final(self)@ == after_register(old(self)@, user@),
            match r {
                None => !old(self)@.dirty.dom().contains(user@),
                Some(w) => old(self)@.dirty.dom().contains(user@) && w.user@ == user@
                    && final(self)@.waiters.dom().contains(user@) && final(self)@.waiters[user@]
                    == w.id,
            },
    {
        if !self.user_map.contains_key(user) {
            return None;
        }
        let registered = match self.tasks_awaiting_key_query.get(user) {
            Some(id) => Some(*id),
            None => None,
        };
        match registered {
            Some(id) => Some(KeyQueryWaiter { user: user.to_owned(), id }),
            None => {
                let ghost waiters_before = self.tasks_awaiting_key_query@;
                self.clock = self.clock + 1;
                let id = self.clock;
                self.tasks_awaiting_key_query.insert(user.to_owned(), id);
                proof {
                    assert forall|u: Seq<char>| #[trigger]
                        self.tasks_awaiting_key_query@.dom().contains(u)
                        implies self.tasks_awaiting_key_query@[u] <= self.clock
                        && self.user_map@.dom().contains(u) by {
                        if u != user@ {
                            assert(waiters_before.dom().contains(u));
                        }
                    }
                }
                Some(KeyQueryWaiter { user: user.to_owned(), id })
            },
        }
    }

    /// Whether the registration that `waiter` stands for has been resolved.
    pub fn is_completed(&self, waiter: &KeyQueryWaiter) -> (r: bool)
        requires
            self.wf(),
        ensures
            r == waiter_completed(self@, waiter.user@, waiter.id),
    {
        match self.tasks_awaiting_key_query.get(waiter.user.as_str()) {
            Some(id) => *id != waiter.id,
            None => true,
        }
    }
}

/// The cryptographic identity of the account, as far as the store looks
/// into it.
#[derive(Debug)]
pub struct Account {
    /// The user of the account.
    pub user_id: String,
    /// The device of the account.
    pub device_id: String,
    /// Whether the account's identity keys have been uploaded.
    pub shared: bool,
    /// How many one-time keys the account has published so far.
    pub uploaded_key_count: u64,
}

/// The model of an [`Account`].
pub struct AccountView {
    pub user_id: Seq<char>,
    pub device_id: Seq<char>,
    pub shared: bool,
    pub uploaded_key_count: u64,
}

impl View for Account {
    type V = AccountView;

    open spec fn view(&self) -> AccountView {
        AccountView {
            user_id: self.user_id@,
            device_id: self.device_id@,
            shared: self.shared,
            uploaded_key_count: self.uploaded_key_count,
        }
    }
}

impl Account {
    /// A copy that shares nothing with the account it was made from.
    pub fn deep_clone(&self) -> (r: Account)
        ensures
            r@ == self@,
    {
        Account {
            user_id: self.user_id.clone(),
            device_id: self.device_id.clone(),
            shared: self.shared,
            uploaded_key_count: self.uploaded_key_count,
        }
    }
}

/// The model of an optional account.
pub open spec fn opt_account_view(a: Option<Account>) -> Option<AccountView> {
    match a {
        Some(x) => Some(x@),
        None => None,
    }
}

/// A user whose device list is followed, as the store records it.
#[derive(Debug)]
pub struct TrackedUser {
    /// The user.
    pub user_id: String,
    /// Whether the user's device list is out of date.
    pub dirty: bool,
}

/// The in-process view of what the store holds.
pub struct StoreCache {
    tracked_users: StringSet,
    loaded_tracked_users: bool,
    account: Option<Account>,
}

/// The model of a [`StoreCache`].
pub struct StoreCacheView {
    /// The users whose device lists are followed.
    pub tracked_users: Set<Seq<char>>,
    /// Whether the tracked users have been loaded from the store.
    pub loaded_tracked_users: bool,
    /// The account, while the cache holds it.
    pub account: Option<AccountView>,
}

impl StoreCache {
    /// The invariant of the set of tracked users.
    pub closed spec fn wf(&self) -> bool {
        self.tracked_users.wf()
    }

    /// The model of the cache.
    pub closed spec fn view(&self) -> StoreCacheView {
        StoreCacheView {
            tracked_users: self.tracked_users@,
            loaded_tracked_users: self.loaded_tracked_users,
            account: opt_account_view(self.account),
        }
    }

    /// The tracked users, in key order.
    pub closed spec fn tracked_user_list(&self) -> Seq<Seq<char>> {
        self.tracked_users.keys()
    }

    /// A cache that holds nothing yet.
    pub fn new() -> (r: Self)
        ensures
            r.wf(),
            r@ == (StoreCacheView {
                tracked_users: Set::empty(),
                loaded_tracked_users: false,
                account: None,
            }),
    {
        StoreCache { tracked_users: StringSet::new(), loaded_tracked_users: false, account: None }
    }

    /// Whether the tracked users have been loaded from the store.
    pub fn loaded_tracked_users(&self) -> (r: bool)
        ensures
            r == self@.loaded_tracked_users,
    {
        self.loaded_tracked_users
    }

    /// Whether the cache holds the account.
    pub fn has_account(&self) -> (r: bool)
        ensures
            r == self@.account is Some,
    {
        self.account.is_some()
    }

    /// Whether `user` is tracked.
    pub fn is_tracked(&self, user: &str) -> (r: bool)
        requires
            self.wf(),
        ensures
            r == self@.tracked_users.contains(user@),
    {
        self.tracked_users.contains(user)
    }

    /// The tracked users, in key order.
    pub fn tracked_users(&self) -> (r: Vec<String>)
        requires
            self.wf(),
        ensures
            r@.len() == self.tracked_user_list().len(),
            forall|i: int| 0 <= i < r@.len() ==> (#[trigger] r@[i])@ == self.tracked_user_list()[i],
    {
        self.tracked_users.to_vec()
    }

    /// The tracked users in key order are exactly the tracked users.
    pub proof fn lemma_tracked_user_list(&self)
        requires
            self.wf(),
        ensures
            crate::sorted_map::strictly_sorted(self.tracked_user_list()),
            forall|u: Seq<char>|
                self@.tracked_users.contains(u) <==> self.tracked_user_list().contains(u),
    {
        self.tracked_users.lemma_keys();
    }

    /// Starts to track `user`; says whether the user was not tracked before.
    pub fn track(&mut self, user: &str) -> (fresh: bool)
        requires
            old(self).wf(),
        ensures
            final(self).wf(),
            fresh == !old(self)@.tracked_users.contains(user@),
            final(self)@ == (StoreCacheView {
                tracked_users: old(self)@.tracked_users.insert(user@),
                ..old(self)@
            }),
    {
        self.tracked_users.insert(user.to_owned())
    }

    /// Records that the tracked users have been loaded.
    pub fn set_loaded_tracked_users(&mut self)
        requires
            old(self).wf(),
        ensures
            final(self).wf(),
            final(self)@ == (StoreCacheView { loaded_tracked_users: true, ..old(self)@ }),
    {
        self.loaded_tracked_users = true;
    }

    /// Memoizes the account that was loaded from the store, unless the cache
    /// holds the account already; gives a copy of the account that the cache
    /// holds then, or `None` where it holds none and none was loaded.
    pub fn account(&mut self, loaded: Option<Account>) -> (r: Option<Account>)
        requires
            old(self).wf(),
        ensures
            final(self).wf(),
            final(self)@ == (StoreCacheView {
                account: if old(self)@.account is Some {
                    old(self)@.account
                } else {
                    opt_account_view(loaded)
                },
                ..old(self)@
            }),
            opt_account_view(r) == final(self)@.account,
    {
        if self.account.is_none() {
            self.account = loaded;
        }
        match &self.account {
            Some(a) => Some(a.deep_clone()),
            None => None,
        }
    }

    /// Takes the account out of the cache, for a transaction to change it.
    pub fn take_account(&mut self) -> (r: Option<Account>)
        requires
            old(self).wf(),
        ensures
            final(self).wf(),
            final(self)@ == (StoreCacheView { account: None, ..old(self)@ }),
            opt_account_view(r) == old(self)@.account,
    {
        self.account.take()
    }

    /// Puts an account into the cache.
    pub fn put_account(&mut self, account: Account)
        requires
            old(self).wf(),
        ensures
            final(self).wf(),
            final(self)@ == (StoreCacheView { account: Some(account@), ..old(self)@ }),
    {
        self.account = Some(account);
    }
}

} // verus!
