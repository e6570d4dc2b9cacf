//! The store as the encryption engine sees it: the account's identity, the
//! cache, and transactions that change the account.
//!
//! Nothing here reads or writes the backend. What was read is handed in, and
//! what is to be written is handed back.

use crate::bundle::{
    build_room_key_bundle, bundle_keys, bundle_withheld, historic_views, keys_for_other_rooms,
    keys_for_room, receive_room_key_bundle, withheld_views, ReceivedBundle, RoomKeyBundle,
};
use crate::caches::{opt_account_view, Account, AccountView, StoreCache, StoreCacheView};
use crate::changes::{no_changes, Changes, ChangesView, PendingChanges};
use crate::export::{
    answers, export_room_keys, export_room_keys_stream, exports, selected, RoomKeyStream,
};
use crate::identities::{
    clone_opt_str, opt_identity_view, opt_own_view, opt_str_view, own_of, Device, DeviceData, DeviceView,
    OwnUserIdentityData, OwnUserIdentityDataView, UserIdentity, UserIdentityData,
    UserIdentityDataView, UserIdentityView, VerificationMachine, VerificationMachineView,
};
use crate::import::{
    accepted_sessions, accepts_progress, import_sessions_impl, key_views, lists_session,
    session_views, RoomKeyImport,
};
use crate::keys::unpadded_base64;
use crate::room_key::{
    session_ordering, ExportedRoomKey, InboundGroupSession, SessionOrdering,
};
use crate::secrets::{
    checked_import, exported_seed, matches_public, opt_seed_view, public_identity_of,
    refused_with, reports, secrets_bundle_of, unchecked_import, BackupKeys, BackupKeysView,
    BackupSecrets, CrossSigningKeyExport, CrossSigningSecrets,
    CrossSigningStatus, CryptoStoreError, ExportFailure, GossippedSecret, ImportFailure, KeyUsage,
    MegolmBackupV1Curve25519AesSha2Secrets, PrivateCrossSigningIdentity, PrivateIdentityView,
    SecretImportError, SecretName, SecretNameView, SecretsBundle, SecretsBundleExportError,
    SecretsBundleView,
};
use crate::sorted_map::SortedMap;
use crate::text::str_eq;
use crate::values::{decode_flag, decoded_flag, encode_flag, encoded_flag};
use vstd::prelude::*;

verus! {

/// What never changes of an account.
#[derive(Debug)]
pub struct StaticAccountData {
    /// The user of the account.
    pub user_id: String,
    /// The device of the account.
    pub device_id: String,
}

/// The store.
pub struct Store {
    static_account: StaticAccountData,
    identity: PrivateCrossSigningIdentity,
    verification_machine: VerificationMachine,
    cache: StoreCache,
}

/// The model of a [`Store`].
pub struct StoreView {
    /// The user of the account.
    pub user_id: Seq<char>,
    /// The device of the account, as the verification machinery knows it.
    pub device_id: Seq<char>,
    /// The device of the account, as the account's own data names it.
    pub account_device_id: Seq<char>,
    /// The verification machinery that devices and identities carry.
    pub verification_machine: VerificationMachineView,
    /// The private cross-signing keys.
    pub identity: PrivateIdentityView,
    /// The cache.
    pub cache: StoreCacheView,
}

impl Store {
    /// The invariant of the cache.
    pub closed spec fn wf(&self) -> bool {
        self.cache.wf()
    }

    /// The model of the store.
    pub closed spec fn view(&self) -> StoreView {
        StoreView {
            user_id: self.static_account.user_id@,
            device_id: self.verification_machine.own_device_id@,
            account_device_id: self.static_account.device_id@,
            verification_machine: self.verification_machine@,
            identity: self.identity@,
            cache: self.cache@,
        }
    }

    /// A store with an empty cache.
    pub fn new(
        account: StaticAccountData,
        identity: PrivateCrossSigningIdentity,
        verification_machine: VerificationMachine,
    ) -> (r: Store)
        ensures
            r.wf(),
            r@ == (StoreView {
                user_id: account.user_id@,
                device_id: verification_machine.own_device_id@,
                account_device_id: account.device_id@,
                verification_machine: verification_machine@,
                identity: identity@,
                cache: StoreCacheView {
                    tracked_users: Set::empty(),
                    loaded_tracked_users: false,
                    account: None,
                },
            }),
    {
        Store { static_account: account, identity, verification_machine, cache: StoreCache::new() }
    }

    /// The user of the account.
    pub fn user_id(&self) -> (r: &String)
        ensures
            r@ == self@.user_id,
    {
        &self.static_account.user_id
    }

    /// The device of the account.
    pub fn device_id(&self) -> (r: &String)
        ensures
            r@ == self@.device_id,
    {
        &self.verification_machine.own_device_id
    }

    /// What never changes of the account.
    pub fn static_account(&self) -> (r: &StaticAccountData)
        ensures
            r.user_id@ == self@.user_id,
            r.device_id@ == self@.account_device_id,
    {
        &self.static_account
    }

    /// The cache.
    pub fn cache(&self) -> (r: &StoreCache)
        ensures
            r@ == self@.cache,
            self.wf() ==> r.wf(),
    {
        &self.cache
    }

    /// Puts `cache` in the place of the store's cache and hands out the cache
    /// that was there, so that the tracking of users can work on it.
    pub fn replace_cache(&mut self, cache: StoreCache) -> (r: StoreCache)
        requires
            old(self).wf(),
            cache.wf(),
        ensures
            final(self).wf(),
            r.wf(),
            r@ == old(self)@.cache,
            final(self)@ == (StoreView { cache: cache@, ..old(self)@ }),
    {
        let mut cache = cache;
        std::mem::swap(&mut self.cache, &mut cache);
        cache
    }

    /// The private cross-signing keys.
    pub fn private_identity(&self) -> (r: &PrivateCrossSigningIdentity)
        ensures
            r@ == self@.identity,
    {
        &self.identity
    }

    /// Forgets the private cross-signing keys.
    pub fn reset_cross_signing_identity(&mut self)
        ensures
            final(self).wf() == old(self).wf(),
            final(self)@ == (StoreView {
                identity: PrivateIdentityView {
                    user_id: old(self)@.identity.user_id,
                    master_key: None,
                    self_signing_key: None,
                    user_signing_key: None,
                },
                ..old(self)@
            }),
    {
        self.identity.reset();
    }

    /// Opens a transaction. The transaction owns the store, and with it the
    /// cache, until it is committed: nobody else reads or changes the
    /// account meanwhile.
    pub fn transaction(self) -> (r: StoreTransaction)
        requires
            self.wf(),
        ensures
            r.wf(),
            r.store_view() == self@,
            r.pending() is None,
    {
        StoreTransaction { store: self, changes: PendingChanges::new() }
    }
}

/// A transaction: a change to the account that is persisted as a whole or
/// not at all.
pub struct StoreTransaction {
    store: Store,
    changes: PendingChanges,
}

impl StoreTransaction {
    /// The invariant of the store.
    pub closed spec fn wf(&self) -> bool {
        self.store.wf()
    }

    /// The model of the store that the transaction owns.
    pub closed spec fn store_view(&self) -> StoreView {
        self.store@
    }

    /// The account as the transaction holds it, once it has taken it.
    pub closed spec fn pending(&self) -> Option<AccountView> {
        self.changes@
    }

    /// The store that the transaction owns.
    pub fn store(&self) -> (r: &Store)
        ensures
            r@ == self.store_view(),
            self.wf() ==> r.wf(),
    {
        &self.store
    }

    /// The cache of the store that the transaction owns.
    pub fn cache(&self) -> (r: &StoreCache)
        ensures
            r@ == self.store_view().cache,
            self.wf() ==> r.wf(),
    {
        self.store.cache()
    }

    /// Hands out the account for a change.
    ///
    /// On first use the account moves from the cache into the transaction;
    /// where the cache does not hold it, the account that was loaded from
    /// the store is taken, and where none was loaded the call fails. From
    /// then on the transaction hands out the account that it holds.
    pub fn account(&mut self, loaded: Option<Account>) -> (r: Result<&mut Account, CryptoStoreError>)
        requires
            old(self).wf(),
        ensures
            final(self).wf(),
            ({
                let held = if old(self).pending() is Some {
                    old(self).pending()
                } else if old(self).store_view().cache.account is Some {
                    old(self).store_view().cache.account
                } else {
                    opt_account_view(loaded)
                };
                match r {
                    Ok(account) => {
                        &&& held == Some(account@)
                        &&& final(self).pending() == Some(final(account)@)
                        &&& final(self).store_view() == (StoreView {
                            cache: StoreCacheView {
                                account: if old(self).pending() is Some {
                                    old(self).store_view().cache.account
                                } else {
                                    None
                                },
                                ..old(self).store_view().cache
                            },
                            ..old(self).store_view()
                        })
                    },
                    Err(e) => {
                        &&& e is AccountUnset
                        &&& held is None
                        &&& final(self).pending() is None
                        &&& final(self).store_view() == old(self).store_view()
                    },
                }
            }),
    {
        if self.changes.account.is_none() {
            let _ = self.store.cache.account(loaded);
            self.changes.account = self.store.cache.take_account();
        }
        match self.changes.account.as_mut() {
            Some(account) => Ok(account),
            None => Err(CryptoStoreError::AccountUnset),
        }
    }

    /// What has to be persisted before the transaction can be committed:
    /// nothing where the account was not taken, else a copy of the account as
    /// it is now.
    pub fn pending_changes(&self) -> (r: Option<PendingChanges>)
        ensures
            match r {
                Some(changes) => self.pending() is Some && changes@ == self.pending(),
                None => self.pending() is None,
            },
    {
        match &self.changes.account {
            Some(account) => Some(PendingChanges { account: Some(account.deep_clone()) }),
            None => None,
        }
    }

    /// Ends the transaction and gives the store back.
    ///
    /// `saved` says how persisting the pending changes went; where there
    /// were none, nothing was to be persisted and it is not looked at. After
    /// a successful write the changed account is put into the cache. After
    /// a failed one the cache is left without an account, so that the next
    /// reader loads what the store holds, and the failure is handed on.
    pub fn commit(self, saved: Result<(), CryptoStoreError>) -> (r: (
        Store,
        Result<(), CryptoStoreError>,
    ))
        requires
            self.wf(),
        ensures
            r.0.wf(),
            r.1 is Ok <==> self.pending() is None || saved is Ok,
            r.1 is Err ==> r.1 == saved,
            r.0@ == (StoreView {
                cache: StoreCacheView {
                    account: if self.pending() is Some && saved is Ok {
                        self.pending()
                    } else {
                        self.store_view().cache.account
                    },
                    ..self.store_view().cache
                },
                ..self.store_view()
            }),
    {
        let StoreTransaction { store, changes } = self;
        let mut store = store;
        match changes.account {
            None => (store, Ok(())),
            Some(account) => match saved {
                Ok(()) => {
                    store.cache.put_account(account);
                    (store, Ok(()))
                },
                Err(e) => (store, Err(e)),
            },
        }
    }

    /// Gives the transaction up and the store back. What the transaction
    /// changed is discarded; where it had taken the account, the cache is
    /// left without one, so that the next reader loads what the store holds.
    pub fn rollback(self) -> (r: Store)
        requires
            self.wf(),
        ensures
            r.wf(),
            r@ == self.store_view(),
    {
        self.store
    }
}

/// The secret that the store exports under a name.
pub open spec fn exported_secret(
    identity: PrivateIdentityView,
    backup: BackupKeysView,
    name: SecretNameView,
) -> Option<Seq<char>> {
    match name {
        SecretNameView::RecoveryKey => match backup.decryption_key {
            Some(key) => Some(unpadded_base64(key)),
            None => None,
        },
        SecretNameView::Custom(_) => None,
        _ => exported_seed(identity, name),
    }
}

/// The model of optional changes.
pub open spec fn opt_changes_view(changes: Option<Changes>) -> Option<ChangesView> {
    match changes {
        Some(c) => Some(c@),
        None => None,
    }
}

/// The outcome of importing private cross-signing keys.
pub struct CrossSigningImport {
    /// Which private keys are at hand now.
    pub status: CrossSigningStatus,
    /// What is to be persisted, where anything is.
    pub changes: Option<Changes>,
}

/// The own identity `public`, marked as verified.
pub open spec fn verified(public: OwnUserIdentityDataView) -> OwnUserIdentityDataView {
    OwnUserIdentityDataView { verified: true, ..public }
}

/// What is to be persisted after private keys were imported and held
/// against `public`: the private identity, and the public identity as
/// verified where all three private keys belong to it.
pub open spec fn cross_signing_changes(
    identity: PrivateIdentityView,
    public: OwnUserIdentityDataView,
) -> ChangesView {
    ChangesView {
        private_identity: Some(identity),
        changed_identities: if matches_public(identity, public) {
            seq![UserIdentityDataView::Own(verified(public))]
        } else {
            Seq::empty()
        },
        ..no_changes()
    }
}

/// The seeds of a secret by the name of a cross-signing key, as an import
/// of all three kinds takes them: master, self-signing, user-signing.
pub open spec fn seeds_by_name(name: SecretNameView, secret: Seq<char>) -> (
    Option<Seq<char>>,
    Option<Seq<char>>,
    Option<Seq<char>>,
) {
    match name {
        SecretNameView::CrossSigningMasterKey => (Some(secret), None, None),
        SecretNameView::CrossSigningSelfSigningKey => (None, Some(secret), None),
        SecretNameView::CrossSigningUserSigningKey => (None, None, Some(secret)),
        _ => (None, None, None),
    }
}

/// Whether a secret's name is that of a private cross-signing key.
pub open spec fn is_cross_signing(name: SecretNameView) -> bool {
    name is CrossSigningMasterKey || name is CrossSigningSelfSigningKey
        || name is CrossSigningUserSigningKey
}

/// What is to be persisted after a bundle was imported.
pub open spec fn bundle_changes(identity: PrivateIdentityView, bundle: SecretsBundleView) -> ChangesView {
    ChangesView {
        private_identity: Some(identity),
        backup_version: match bundle.backup {
            Some(b) => Some(b.1),
            None => None,
        },
        backup_decryption_key: match bundle.backup {
            Some(b) => Some(b.0),
            None => None,
        },
        new_identities: match public_identity_of(identity) {
            Some(public) => seq![UserIdentityDataView::Own(public)],
            None => Seq::empty(),
        },
        ..no_changes()
    }
}

impl Store {
    /// Exports the secret that goes by `secret_name`: the seed of a private
    /// cross-signing key, or the backup key in unpadded base64. There is
    /// none where the secret is not at hand, or the name is not known.
    pub fn export_secret(&self, secret_name: &SecretName, backup_keys: &BackupKeys) -> (r: Option<
        String,
    >)
        ensures
            opt_str_view(r) == exported_secret(self@.identity, backup_keys@, secret_name@),
    {
        match secret_name {
            SecretName::CrossSigningMasterKey
            | SecretName::CrossSigningUserSigningKey
            | SecretName::CrossSigningSelfSigningKey => self.identity.export_secret(secret_name),
            SecretName::RecoveryKey => match &backup_keys.decryption_key {
                Some(key) => Some(key.to_base64()),
                None => None,
            },
            SecretName::Custom(_) => None,
        }
    }

    /// Exports the private cross-signing keys that are at hand, as seeds.
    /// There is no export where none is at hand.
    pub fn export_cross_signing_keys(&self) -> (r: Option<CrossSigningKeyExport>)
        ensures
            match r {
                Some(export) => {
                    &&& opt_str_view(export.master_key) == exported_seed(
                        self@.identity,
                        SecretNameView::CrossSigningMasterKey,
                    )
                    &&& opt_str_view(export.self_signing_key) == exported_seed(
                        self@.identity,
                        SecretNameView::CrossSigningSelfSigningKey,
                    )
                    &&& opt_str_view(export.user_signing_key) == exported_seed(
                        self@.identity,
                        SecretNameView::CrossSigningUserSigningKey,
                    )
                    &&& (self@.identity.master_key is Some || self@.identity.self_signing_key is Some
                        || self@.identity.user_signing_key is Some)
                },
                None => self@.identity.master_key is None && self@.identity.self_signing_key is None
                    && self@.identity.user_signing_key is None,
            },
    {
        let master_key = self.identity.export_secret(&SecretName::CrossSigningMasterKey);
        let self_signing_key = self.identity.export_secret(&SecretName::CrossSigningSelfSigningKey);
        let user_signing_key = self.identity.export_secret(&SecretName::CrossSigningUserSigningKey);
        if master_key.is_none() && self_signing_key.is_none() && user_signing_key.is_none() {
            None
        } else {
            Some(CrossSigningKeyExport { master_key, self_signing_key, user_signing_key })
        }
    }

    /// Imports private cross-signing keys, each held against the public
    /// identity of the own user.
    ///
    /// Without a public identity nothing is imported and nothing is to be
    /// persisted; that is no failure. With one, the keys are imported as a
    /// checked import does; the private identity is to be persisted, and the
    /// public identity too, marked as verified, where all three private keys
    /// belong to it.
    pub fn import_cross_signing_keys(
        &mut self,
        export: &CrossSigningKeyExport,
        public_identity: Option<OwnUserIdentityData>,
    ) -> (r: Result<CrossSigningImport, SecretImportError>)
        requires
            old(self).wf(),
        ensures
            final(self).wf(),
            final(self)@ == (StoreView { identity: final(self)@.identity, ..old(self)@ }),
            match public_identity {
                None => r matches Ok(import) && import.changes is None && final(self)@
                    == old(self)@,
                Some(public) => {
                    let outcome = checked_import(
                        old(self)@.identity,
                        public@,
                        opt_str_view(export.master_key),
                        opt_str_view(export.self_signing_key),
                        opt_str_view(export.user_signing_key),
                    );
                    match r {
                        Ok(import) => outcome == Ok::<PrivateIdentityView, ImportFailure>(
                            final(self)@.identity,
                        ) && opt_changes_view(import.changes) == Some(
                            cross_signing_changes(final(self)@.identity, public@),
                        ),
                        Err(e) => refused_with(outcome, e) && final(self)@ == old(self)@,
                    }
                },
            },
            r matches Ok(import) ==> import.status == (CrossSigningStatus {
                has_master: final(self)@.identity.master_key is Some,
                has_self_signing: final(self)@.identity.self_signing_key is Some,
                has_user_signing: final(self)@.identity.user_signing_key is Some,
            }),
    {
        match public_identity {
            None => Ok(CrossSigningImport { status: self.identity.status(), changes: None }),
            Some(public) => {
                let master = as_seed(&export.master_key);
                let self_signing = as_seed(&export.self_signing_key);
                let user_signing = as_seed(&export.user_signing_key);
                match self.identity.import_secrets(&public, master, self_signing, user_signing) {
                    Err(e) => Err(e),
                    Ok(()) => {
                        let status = self.identity.status();
                        let mut changes = Changes::empty();
                        changes.private_identity = Some(self.identity.clone());
                        if self.identity.matches_public_identity(&public) {
                            let mut public = public;
                            public.verified = true;
                            changes.identities.changed.push(UserIdentityData::Own(public));
                            proof {
                                assert(changes@.changed_identities =~= seq![
                                    UserIdentityDataView::Own(public@),
                                ]);
                            }
                        }
                        Ok(CrossSigningImport { status, changes: Some(changes) })
                    },
                }
            },
        }
    }

    /// Exports all secrets as a bundle: the three private cross-signing
    /// keys and, where the store holds one, the backup key with its version.
    pub fn export_secrets_bundle(&self, backup_keys: &BackupKeys) -> (r: Result<
        SecretsBundle,
        SecretsBundleExportError,
    >)
        ensures
            match r {
                Ok(bundle) => secrets_bundle_of(self@.identity, backup_keys@) == Ok::<
                    SecretsBundleView,
                    ExportFailure,
                >(bundle@),
                Err(e) => match secrets_bundle_of(self@.identity, backup_keys@) {
                    Err(why) => reports(e, why),
                    Ok(_) => false,
                },
            },
    {
        let cross_signing = match self.export_cross_signing_keys() {
            Some(export) => export,
            None => {
                return Err(SecretsBundleExportError::MissingCrossSigningKeys);
            },
        };
        let master_key = match cross_signing.master_key {
            Some(key) => key,
            None => {
                return Err(SecretsBundleExportError::MissingCrossSigningKey(KeyUsage::Master));
            },
        };
        let user_signing_key = match cross_signing.user_signing_key {
            Some(key) => key,
            None => {
                return Err(SecretsBundleExportError::MissingCrossSigningKey(KeyUsage::UserSigning));
            },
        };
        let self_signing_key = match cross_signing.self_signing_key {
            Some(key) => key,
            None => {
                return Err(SecretsBundleExportError::MissingCrossSigningKey(KeyUsage::SelfSigning));
            },
        };
        let backup = match &backup_keys.decryption_key {
            Some(key) => match &backup_keys.backup_version {
                Some(backup_version) => Some(
                    BackupSecrets::MegolmBackupV1Curve25519AesSha2(
                        MegolmBackupV1Curve25519AesSha2Secrets {
                            key: key.clone(),
                            backup_version: backup_version.clone(),
                        },
                    ),
                ),
                None => {
                    return Err(SecretsBundleExportError::MissingBackupVersion);
                },
            },
            None => None,
        };
        Ok(
            SecretsBundle {
                cross_signing: CrossSigningSecrets { master_key, user_signing_key, self_signing_key },
                backup,
            },
        )
    }

    /// Imports the secrets of a bundle. The source is trusted: the private
    /// keys are not held against a public identity. The own identity that
    /// belongs to them is made anew, marked as verified. Returns what is to
    /// be persisted: the private identity, the new own identity, and the
    /// backup key with its version where the bundle holds them.
    pub fn import_secrets_bundle(&mut self, bundle: &SecretsBundle) -> (r: Result<
        Changes,
        SecretImportError,
    >)
        requires
            old(self).wf(),
        ensures
            final(self).wf(),
            final(self)@ == (StoreView { identity: final(self)@.identity, ..old(self)@ }),
            ({
                let outcome = unchecked_import(
                    old(self)@.identity,
                    Some(bundle@.master_key),
                    Some(bundle@.self_signing_key),
                    Some(bundle@.user_signing_key),
                );
                match r {
                    Ok(changes) => outcome == Ok::<PrivateIdentityView, ImportFailure>(
                        final(self)@.identity,
                    ) && changes@ == bundle_changes(final(self)@.identity, bundle@)
                        && public_identity_of(final(self)@.identity) is Some,
                    Err(e) => refused_with(outcome, e) && final(self)@ == old(self)@,
                }
            }),
    {
        let mut changes = Changes::empty();
        match &bundle.backup {
            Some(BackupSecrets::MegolmBackupV1Curve25519AesSha2(backup)) => {
                changes.backup_decryption_key = Some(backup.key.clone());
                changes.backup_version = Some(backup.backup_version.clone());
            },
            None => {},
        }
        match self.identity.import_secrets_unchecked(
            Some(bundle.cross_signing.master_key.as_str()),
            Some(bundle.cross_signing.self_signing_key.as_str()),
            Some(bundle.cross_signing.user_signing_key.as_str()),
        ) {
            Err(e) => Err(e),
            Ok(()) => {
                match self.identity.to_public_identity() {
                    Some(public_identity) => {
                        changes.identities.new.push(UserIdentityData::Own(public_identity));
                        proof {
                            assert(changes@.new_identities =~= seq![
                                UserIdentityDataView::Own(public_identity@),
                            ]);
                        }
                    },
                    None => {},
                }
                changes.private_identity = Some(self.identity.clone());
                Ok(changes)
            },
        }
    }

    /// Imports a secret that another device sent.
    ///
    /// A private cross-signing key is imported where the public identity of
    /// the own user is known, after it was held against that identity; the
    /// private identity is to be persisted then. The backup key is not
    /// imported here, and a secret of an unknown name is ignored: nothing is
    /// to be persisted for either, and neither is a failure.
    pub fn import_secret(
        &mut self,
        secret: &GossippedSecret,
        public_identity: Option<&OwnUserIdentityData>,
    ) -> (r: Result<Option<Changes>, SecretImportError>)
        requires
            old(self).wf(),
        ensures
            final(self).wf(),
            final(self)@ == (StoreView { identity: final(self)@.identity, ..old(self)@ }),
            match public_identity {
                Some(public) if is_cross_signing(secret.secret_name@) => {
                    let seeds = seeds_by_name(secret.secret_name@, secret.secret@);
                    let outcome = checked_import(
                        old(self)@.identity,
                        public@,
                        seeds.0,
                        seeds.1,
                        seeds.2,
                    );
                    match r {
                        Ok(changes) => outcome == Ok::<PrivateIdentityView, ImportFailure>(
                            final(self)@.identity,
                        ) && opt_changes_view(changes) == Some(
                            ChangesView {
                                private_identity: Some(final(self)@.identity),
                                ..no_changes()
                            },
                        ),
                        Err(e) => refused_with(outcome, e) && final(self)@ == old(self)@,
                    }
                },
                _ => r matches Ok(changes) && changes is None && final(self)@ == old(self)@,
            },
    {
        let public = match public_identity {
            Some(public) => public,
            None => {
                return Ok(None);
            },
        };
        let seed = secret.secret.as_str();
        let imported = match &secret.secret_name {
            SecretName::CrossSigningMasterKey => self.identity.import_secrets(
                public,
                Some(seed),
                None,
                None,
            ),
            SecretName::CrossSigningSelfSigningKey => self.identity.import_secrets(
                public,
                None,
                Some(seed),
                None,
            ),
            SecretName::CrossSigningUserSigningKey => self.identity.import_secrets(
                public,
                None,
                None,
                Some(seed),
            ),
            _ => {
                return Ok(None);
            },
        };
        match imported {
            Err(e) => Err(e),
            Ok(()) => {
                let mut changes = Changes::empty();
                changes.private_identity = Some(self.identity.clone());
                Ok(Some(changes))
            },
        }
    }

    /// Reads the flag that says whether messages are encrypted for trusted
    /// devices only, from the bytes that the store holds for it. A store that
    /// holds nothing for the flag stands for `false`.
    pub fn get_only_allow_trusted_devices(&self, value: Option<&Vec<u8>>) -> (r: Result<
        bool,
        CryptoStoreError,
    >)
        ensures
            match value {
                None => r matches Ok(flag) && !flag,
                Some(bytes) => match r {
                    Ok(flag) => decoded_flag(bytes@) == Some(flag),
                    Err(e) => decoded_flag(bytes@) is None && e is Decode,
                },
            },
    {
        match value {
            None => Ok(false),
            Some(bytes) => match decode_flag(bytes) {
                Ok(flag) => Ok(flag),
                Err(e) => Err(CryptoStoreError::Decode(e)),
            },
        }
    }

    /// Writes the flag that says whether messages are encrypted for trusted
    /// devices only, as the bytes that the store is to hold for it.
    pub fn set_only_allow_trusted_devices(&self, block_untrusted_devices: bool) -> (r: Result<
        Vec<u8>,
        CryptoStoreError,
    >)
        ensures
            match r {
                Ok(bytes) => bytes@ == encoded_flag(block_untrusted_devices),
                Err(e) => e is Encode,
            },
    {
        match encode_flag(block_untrusted_devices) {
            Ok(bytes) => Ok(bytes),
            Err(e) => Err(CryptoStoreError::Encode(e)),
        }
    }
}

/// An optional seed as text.
fn as_seed(seed: &Option<String>) -> (r: Option<&str>)
    ensures
        opt_seed_view(r) == opt_str_view(*seed),
{
    match seed {
        Some(s) => Some(s.as_str()),
        None => None,
    }
}

/// The devices of one user, together with what is needed to judge their
/// trust.
pub struct UserDevices {
    /// What the store records of the devices, by device id.
    pub inner: SortedMap<DeviceData>,
    /// The verification machinery.
    pub verification_machine: VerificationMachine,
    /// The identity of the account's own user, where it is known.
    pub own_identity: Option<OwnUserIdentityData>,
    /// The identity of the user that owns the devices, where it is known.
    pub device_owner_identity: Option<UserIdentityData>,
}

/// The place of the first device, in the order of the device ids, whose
/// Curve25519 key is `curve_key`, or the number of devices where no device
/// has that key.
pub open spec fn device_with_key(devices: Seq<DeviceData>, curve_key: Seq<char>) -> int
    decreases devices.len(),
{
    if devices.len() == 0 {
        0
    } else if devices[0]@.curve25519_key == Some(curve_key) {
        0
    } else {
        1 + device_with_key(devices.drop_first(), curve_key)
    }
}

/// The place that `device_with_key` gives is within the devices or just
/// behind them, no device before it has the key, and the device at it has.
pub proof fn lemma_device_with_key(devices: Seq<DeviceData>, curve_key: Seq<char>)
    ensures
        0 <= device_with_key(devices, curve_key) <= devices.len(),
        forall|i: int|
            0 <= i < device_with_key(devices, curve_key) ==> (#[trigger] devices[i])@.curve25519_key
                != Some(curve_key),
        device_with_key(devices, curve_key) < devices.len() ==> devices[device_with_key(
            devices,
            curve_key,
        )]@.curve25519_key == Some(curve_key),
    decreases devices.len(),
{
    if devices.len() > 0 && devices[0]@.curve25519_key != Some(curve_key) {
        let rest = devices.drop_first();
        lemma_device_with_key(rest, curve_key);
        let p = device_with_key(rest, curve_key);
        assert forall|i: int| 0 <= i < 1 + p implies (#[trigger] devices[i])@.curve25519_key != Some(
            curve_key,
        ) by {
            if i > 0 {
                assert(devices[i] == rest[i - 1]);
            }
        }
        if p < rest.len() {
            assert(devices[1 + p] == rest[p]);
        }
    }
}

/// A place is the one that `device_with_key` gives where no device before it
/// has the key and the device at it, if there is one, has.
proof fn lemma_device_with_key_is(devices: Seq<DeviceData>, curve_key: Seq<char>, p: int)
    requires
        0 <= p <= devices.len(),
        forall|i: int| 0 <= i < p ==> (#[trigger] devices[i])@.curve25519_key != Some(curve_key),
        p < devices.len() ==> devices[p]@.curve25519_key == Some(curve_key),
    ensures
        device_with_key(devices, curve_key) == p,
{
    lemma_device_with_key(devices, curve_key);
    let q = device_with_key(devices, curve_key);
    if q < p {
        assert(devices[q]@.curve25519_key != Some(curve_key));
    }
}

/// The own user's identity in an identity record, where the record is one.
fn own_identity_of(record: &Option<UserIdentityData>) -> (r: Option<OwnUserIdentityData>)
    ensures
        opt_own_view(r) == own_of(opt_identity_view(*record)),
{
    match record {
        Some(identity) => match identity.own() {
            Some(own) => Some(own.clone()),
            None => None,
        },
        None => None,
    }
}

impl Store {
    /// How `session` relates to the session that the store holds in its
    /// place. Where the store holds none, the session is better.
    pub fn compare_group_session(
        &self,
        session: &InboundGroupSession,
        old_session: Option<&InboundGroupSession>,
    ) -> (r: SessionOrdering)
        ensures
            r == match old_session {
                Some(old) => session_ordering(session@, old@),
                None => SessionOrdering::Better,
            },
    {
        match old_session {
            Some(old) => session.compare(old),
            None => SessionOrdering::Better,
        }
    }

    /// The display name of the account's own device, from what the store
    /// records of that device.
    pub fn device_display_name(&self, own_device: Option<&DeviceData>) -> (r: Option<String>)
        ensures
            opt_str_view(r) == match own_device {
                Some(d) => d@.display_name,
                None => None,
            },
    {
        match own_device {
            Some(d) => clone_opt_str(&d.display_name),
            None => None,
        }
    }

    /// The devices of `user_id` that messages are encrypted for: all that
    /// the store records, but for the account's own device.
    pub fn get_device_data_for_user_filtered(
        &self,
        user_id: &str,
        devices: SortedMap<DeviceData>,
    ) -> (r: SortedMap<DeviceData>)
        requires
            devices.wf(),
        ensures
            r.wf(),
            r@ == if user_id@ == self@.user_id {
                devices@.remove(self@.device_id)
            } else {
                devices@
            },
    {
        let mut devices = devices;
        if str_eq(user_id, self.user_id().as_str()) {
            devices.remove(self.device_id().as_str());
        }
        devices
    }

    /// The devices of a user, with the own identity and the identity of the
    /// user attached. `own_identity` is what the store records as the
    /// identity of the account's user; it counts only where it is an own
    /// identity.
    pub fn get_user_devices(
        &self,
        devices: SortedMap<DeviceData>,
        own_identity: &Option<UserIdentityData>,
        device_owner_identity: Option<UserIdentityData>,
    ) -> (r: UserDevices)
        ensures
            r.inner == devices,
            r.verification_machine@ == self@.verification_machine,
            opt_own_view(r.own_identity) == own_of(opt_identity_view(*own_identity)),
            opt_identity_view(r.device_owner_identity) == opt_identity_view(device_owner_identity),
    {
        UserDevices {
            inner: devices,
            verification_machine: self.verification_machine.clone(),
            own_identity: own_identity_of(own_identity),
            device_owner_identity,
        }
    }

    /// The first of a user's devices, in the order of the device ids, that
    /// has the Curve25519 key `curve_key`, with the identities that the
    /// devices carry attached.
    pub fn get_device_from_curve_key(&self, devices: &UserDevices, curve_key: &str) -> (r: Option<
        Device,
    >)
        requires
            devices.inner.wf(),
        ensures
            ({
                let p = device_with_key(devices.inner.values(), curve_key@);
                match r {
                    Some(device) => p < devices.inner.values().len() && device@ == (DeviceView {
                        inner: devices.inner.values()[p]@,
                        verification_machine: devices.verification_machine@,
                        own_identity: opt_own_view(devices.own_identity),
                        device_owner_identity: opt_identity_view(devices.device_owner_identity),
                    }),
                    None => p == devices.inner.values().len(),
                }
            }),
    {
        let n = devices.inner.len();
        let mut i: usize = 0;
        while i < n
            invariant
                i <= n,
                n == devices.inner.values().len(),
                devices.inner.wf(),
                forall|j: int|
                    0 <= j < i ==> (#[trigger] devices.inner.values()[j])@.curve25519_key != Some(
                        curve_key@,
                    ),
            decreases n - i,
        {
            let data = devices.inner.value_at(i);
            let found = match &data.curve25519_key {
                Some(key) => str_eq(key.as_str(), curve_key),
                None => false,
            };
            if found {
                proof {
                    lemma_device_with_key_is(devices.inner.values(), curve_key@, i as int);
                }
                return Some(
                    Device {
                        inner: data.clone(),
                        verification_machine: devices.verification_machine.clone(),
                        own_identity: match &devices.own_identity {
                            Some(identity) => Some(identity.clone()),
                            None => None,
                        },
                        device_owner_identity: match &devices.device_owner_identity {
                            Some(identity) => Some(identity.clone()),
                            None => None,
                        },
                    },
                );
            }
            i += 1;
        }
        proof {
            lemma_device_with_key_is(devices.inner.values(), curve_key@, n as int);
        }
        None
    }

    /// A device, with the own identity and the identity of its owner
    /// attached. `own_identity` is what the store records as the identity of
    /// the account's user; it counts only where it is an own identity.
    pub fn wrap_device_data(
        &self,
        device_data: DeviceData,
        own_identity: &Option<UserIdentityData>,
        device_owner_identity: Option<UserIdentityData>,
    ) -> (r: Device)
        ensures
            r@ == (DeviceView {
                inner: device_data@,
                verification_machine: self@.verification_machine,
                own_identity: own_of(opt_identity_view(*own_identity)),
                device_owner_identity: opt_identity_view(device_owner_identity),
            }),
    {
        Device {
            inner: device_data,
            verification_machine: self.verification_machine.clone(),
            own_identity: own_identity_of(own_identity),
            device_owner_identity,
        }
    }

    /// The device that the store records, if it records one, with the own
    /// identity and the identity of its owner attached.
    pub fn get_device(
        &self,
        device_data: Option<DeviceData>,
        own_identity: &Option<UserIdentityData>,
        device_owner_identity: Option<UserIdentityData>,
    ) -> (r: Option<Device>)
        ensures
            match (device_data, r) {
                (Some(data), Some(device)) => device@ == (DeviceView {
                    inner: data@,
                    verification_machine: self@.verification_machine,
                    own_identity: own_of(opt_identity_view(*own_identity)),
                    device_owner_identity: opt_identity_view(device_owner_identity),
                }),
                (None, None) => true,
                _ => false,
            },
    {
        match device_data {
            Some(data) => Some(self.wrap_device_data(data, own_identity, device_owner_identity)),
            None => None,
        }
    }

    /// The identity that the store records of a user, if it records one,
    /// with the own identity attached.
    pub fn get_identity(
        &self,
        own_identity: &Option<UserIdentityData>,
        identity: Option<UserIdentityData>,
    ) -> (r: Option<UserIdentity>)
        ensures
            match (identity, r) {
                (Some(i), Some(found)) => found@ == (UserIdentityView {
                    inner: i@,
                    verification_machine: self@.verification_machine,
                    own_identity: own_of(opt_identity_view(*own_identity)),
                }),
                (None, None) => true,
                _ => false,
            },
    {
        match identity {
            Some(i) => Some(
                UserIdentity {
                    inner: i,
                    verification_machine: self.verification_machine.clone(),
                    own_identity: own_identity_of(own_identity),
                },
            ),
            None => None,
        }
    }

    /// Imports room keys against the sessions that the store holds. Keys
    /// that came from a key backup are marked as backed up. Returns what the
    /// import reports, and the sessions to save.
    pub fn import_room_keys<F: Fn(usize, usize)>(
        &self,
        stored: &Vec<InboundGroupSession>,
        exported_keys: Vec<ExportedRoomKey>,
        from_backup_version: Option<&str>,
        progress_listener: F,
    ) -> (r: RoomKeyImport)
        requires
            accepts_progress(progress_listener, exported_keys@.len()),
        ensures
            session_views(r.sessions@) == accepted_sessions(
                session_views(stored@),
                key_views(exported_keys@),
                from_backup_version is Some,
            ),
            r.result.imported_count == r.sessions@.len(),
            r.result.total_count == exported_keys@.len(),
            r.result.keys.wf(),
            forall|room: Seq<char>, sender: Seq<char>, id: Seq<char>| #[trigger]
                r.result.keys.contains(room, sender, id) <==> lists_session(
                    session_views(r.sessions@),
                    room,
                    sender,
                    id,
                ),
    {
        import_sessions_impl(stored, &exported_keys, from_backup_version, progress_listener)
    }

    /// Imports room keys from a key export against the sessions that the
    /// store holds. Returns what the import reports, and the sessions to
    /// save.
    pub fn import_exported_room_keys<F: Fn(usize, usize)>(
        &self,
        stored: &Vec<InboundGroupSession>,
        exported_keys: Vec<ExportedRoomKey>,
        progress_listener: F,
    ) -> (r: RoomKeyImport)
        requires
            accepts_progress(progress_listener, exported_keys@.len()),
        ensures
            session_views(r.sessions@) == accepted_sessions(
                session_views(stored@),
                key_views(exported_keys@),
                false,
            ),
            r.result.imported_count == r.sessions@.len(),
            r.result.total_count == exported_keys@.len(),
            r.result.keys.wf(),
            forall|room: Seq<char>, sender: Seq<char>, id: Seq<char>| #[trigger]
                r.result.keys.contains(room, sender, id) <==> lists_session(
                    session_views(r.sessions@),
                    room,
                    sender,
                    id,
                ),
    {
        self.import_room_keys(stored, exported_keys, None, progress_listener)
    }

    /// Exports the stored sessions that `predicate` selects, in their order.
    pub fn export_room_keys<P: Fn(&InboundGroupSession) -> bool>(
        &self,
        stored: &Vec<InboundGroupSession>,
        predicate: P,
    ) -> (r: Vec<ExportedRoomKey>)
        requires
            forall|s: &InboundGroupSession| predicate.requires((s, )),
        ensures
            exists|picked: Seq<bool>|
                answers(predicate, stored@, picked) && key_views(r@) == exports(
                    selected(session_views(stored@), picked),
                ),
    {
        export_room_keys(stored, predicate)
    }

    /// Selects the stored sessions that `predicate` picks, for export one by
    /// one.
    pub fn export_room_keys_stream<P: Fn(&InboundGroupSession) -> bool>(
        &self,
        stored: &Vec<InboundGroupSession>,
        predicate: P,
    ) -> (r: RoomKeyStream)
        requires
            forall|s: &InboundGroupSession| predicate.requires((s, )),
        ensures
            r.wf(),
            exists|picked: Seq<bool>|
                answers(predicate, stored@, picked) && r.remaining() == selected(
                    session_views(stored@),
                    picked,
                ),
    {
        export_room_keys_stream(stored, predicate)
    }

    /// Puts together the bundle of room keys for `room_id` from the stored
    /// sessions: the keys of the room's sessions that are flagged for shared
    /// history, and for each of the room's other sessions a declaration of
    /// this device that it withholds the key.
    pub fn build_room_key_bundle(&self, stored: &Vec<InboundGroupSession>, room_id: &str) -> (bundle:
        RoomKeyBundle)
        ensures
            historic_views(bundle.room_keys@) == bundle_keys(session_views(stored@), room_id@),
            withheld_views(bundle.withheld@) == bundle_withheld(
                session_views(stored@),
                room_id@,
                self@.device_id,
            ),
    {
        build_room_key_bundle(stored, room_id, self.device_id().as_str())
    }

    /// Takes in the bundle that was received for `room_id`: the keys that
    /// are meant for the room are imported against the stored sessions, the
    /// others are left aside.
    pub fn receive_room_key_bundle<F: Fn(usize, usize)>(
        &self,
        stored: &Vec<InboundGroupSession>,
        room_id: &str,
        bundle: &RoomKeyBundle,
        progress_listener: F,
    ) -> (r: ReceivedBundle)
        requires
            accepts_progress(
                progress_listener,
                keys_for_room(historic_views(bundle.room_keys@), room_id@).len(),
            ),
        ensures
            ({
                let keys = historic_views(bundle.room_keys@);
                let good = keys_for_room(keys, room_id@);
                match r {
                    ReceivedBundle::Empty => keys.len() == 0,
                    ReceivedBundle::WrongRoom { ignored } => keys.len() > 0 && good.len() == 0
                        && ignored == keys.len(),
                    ReceivedBundle::Imported { ignored, import } => {
                        &&& good.len() > 0
                        &&& ignored == keys_for_other_rooms(keys, room_id@)
                        &&& session_views(import.sessions@) == accepted_sessions(
                            session_views(stored@),
                            good,
                            false,
                        )
                        &&& import.result.imported_count == import.sessions@.len()
                        &&& import.result.total_count == good.len()
                        &&& import.result.keys.wf()
                        &&& forall|room: Seq<char>, sender: Seq<char>, id: Seq<char>| #[trigger]
                            import.result.keys.contains(room, sender, id) <==> lists_session(
                                session_views(import.sessions@),
                                room,
                                sender,
                                id,
                            )
                    },
                }
            }),
    {
        receive_room_key_bundle(stored, room_id, bundle, progress_listener)
    }
}

/// A backend that can hand out leases on named locks.
pub trait LeaseStore {
    /// Tries to take the lock `key` for `holder`, for `lease_duration_ms`
    /// milliseconds; says whether `holder` has the lock now.
    fn try_take_leased_lock(&self, lease_duration_ms: u32, key: &str, holder: &str) -> Result<
        bool,
        CryptoStoreError,
    >;
}

/// A store that offers what a lock across processes is built from.
pub struct LockableCryptoStore<S: LeaseStore>(pub S);

impl<S: LeaseStore> LockableCryptoStore<S> {
    /// Tries to take the lock `key` for `holder`, for `lease_duration_ms`
    /// milliseconds, at the backend; hands on what the backend answers.
    ///
    /// The backend is asked once, with the duration, the key and the holder
    /// as they were given, and its answer is the result: whatever the
    /// backend promises of an answer to that request holds of the result.
    pub fn try_lock(&self, lease_duration_ms: u32, key: &str, holder: &str) -> (r: Result<
        bool,
        CryptoStoreError,
    >)
        ensures
            call_ensures(S::try_take_leased_lock, (&self.0, lease_duration_ms, key, holder), r),
    {
        self.0.try_take_leased_lock(lease_duration_ms, key, holder)
    }
}

} // verus!
