//! Secrets: the private cross-signing keys, the backup key, and the bundle
//! in which they travel to a new device.

use crate::identities::{opt_str_view, OwnUserIdentityData, OwnUserIdentityDataView};
use crate::keys::{base64_encode, ed25519_public_key_of, public_key_of_seed, seed_length_ok, unpadded_base64, KeyError};
use vstd::prelude::*;

verus! {

/// The name of a secret.
#[derive(Debug)]
pub enum SecretName {
    /// The private master cross-signing key.
    CrossSigningMasterKey,
    /// The private user-signing key.
    CrossSigningUserSigningKey,
    /// The private self-signing key.
    CrossSigningSelfSigningKey,
    /// The key that decrypts the key backup.
    RecoveryKey,
    /// Any other secret, by its name.
    Custom(String),
}

/// What a cross-signing key is used for.
#[derive(Clone, Copy, Debug, PartialEq, Eq, Structural)]
pub enum KeyUsage {
    /// The master key.
    Master,
    /// The key that signs the user's own devices.
    SelfSigning,
    /// The key that signs other users' master keys.
    UserSigning,
}

/// A private cross-signing key: its seed, and the public key that belongs
/// to it, both in unpadded base64.
#[derive(Debug)]
pub struct CrossSigningKey {
    seed: String,
    public_key: String,
}

/// The model of a [`CrossSigningKey`].
pub struct CrossSigningKeyView {
    pub seed: Seq<char>,
    pub public_key: Seq<char>,
}

impl View for CrossSigningKey {
    type V = CrossSigningKeyView;

    closed spec fn view(&self) -> CrossSigningKeyView {
        CrossSigningKeyView { seed: self.seed@, public_key: self.public_key@ }
    }
}

impl Clone for CrossSigningKey {
    fn clone(&self) -> (r: Self)
        ensures
            r@ == self@,
    {
        CrossSigningKey { seed: self.seed.clone(), public_key: self.public_key.clone() }
    }
}

/// The model of an optional key.
pub open spec fn opt_key_view(k: Option<CrossSigningKey>) -> Option<CrossSigningKeyView> {
    match k {
        Some(x) => Some(x@),
        None => None,
    }
}

/// The key that a seed decodes to, or `None` where it decodes to none.
pub open spec fn decoded_key(seed: Seq<char>) -> Option<CrossSigningKeyView> {
    if seed_length_ok(seed) {
        match ed25519_public_key_of(seed) {
            Some(public_key) => Some(CrossSigningKeyView { seed, public_key }),
            None => None,
        }
    } else {
        None
    }
}

impl CrossSigningKey {
    /// Decodes a seed and derives its public key.
    pub fn from_seed(seed: &str) -> (r: Result<CrossSigningKey, KeyError>)
        ensures
            match r {
                Ok(k) => decoded_key(seed@) == Some(k@),
                Err(_) => decoded_key(seed@) is None,
            },
    {
        match public_key_of_seed(seed) {
            Ok(public_key) => Ok(CrossSigningKey { seed: seed.to_owned(), public_key }),
            Err(e) => Err(e),
        }
    }

    /// The seed, in unpadded base64.
    pub fn seed(&self) -> (r: &String)
        ensures
            r@ == self@.seed,
    {
        &self.seed
    }

    /// The public key, in unpadded base64.
    pub fn public_key(&self) -> (r: &String)
        ensures
            r@ == self@.public_key,
    {
        &self.public_key
    }
}

/// Which private cross-signing keys are at hand.
#[derive(Clone, Copy, Debug, PartialEq, Eq, Structural)]
pub struct CrossSigningStatus {
    /// Whether the master key is at hand.
    pub has_master: bool,
    /// Whether the self-signing key is at hand.
    pub has_self_signing: bool,
    /// Whether the user-signing key is at hand.
    pub has_user_signing: bool,
}

impl CrossSigningStatus {
    /// Whether all three keys are at hand.
    pub fn is_complete(&self) -> (r: bool)
        ensures
            r == (self.has_master && self.has_self_signing && self.has_user_signing),
    {
        self.has_master && self.has_self_signing && self.has_user_signing
    }
}

/// The private cross-signing keys of the account's user.
#[derive(Debug)]
pub struct PrivateCrossSigningIdentity {
    user_id: String,
    master_key: Option<CrossSigningKey>,
    self_signing_key: Option<CrossSigningKey>,
    user_signing_key: Option<CrossSigningKey>,
}

/// The model of a [`PrivateCrossSigningIdentity`].
pub struct PrivateIdentityView {
    pub user_id: Seq<char>,
    pub master_key: Option<CrossSigningKeyView>,
    pub self_signing_key: Option<CrossSigningKeyView>,
    pub user_signing_key: Option<CrossSigningKeyView>,
}

/// Why an import of private keys is refused.
pub enum ImportFailure {
    /// A seed does not decode.
    InvalidKey,
    /// A key is not the private half of the public key that is known.
    MismatchedPublicKeys,
}

/// The key to take for a seed that was offered, if it decodes.
pub open spec fn offered_key(seed: Option<Seq<char>>) -> Result<
    Option<CrossSigningKeyView>,
    ImportFailure,
> {
    match seed {
        None => Ok(None),
        Some(s) => match decoded_key(s) {
            None => Err(ImportFailure::InvalidKey),
            Some(k) => Ok(Some(k)),
        },
    }
}

/// The key to take for a seed that was offered, if it decodes and belongs to
/// the public key `expected`.
pub open spec fn checked_key(seed: Option<Seq<char>>, expected: Seq<char>) -> Result<
    Option<CrossSigningKeyView>,
    ImportFailure,
> {
    match offered_key(seed) {
        Ok(Some(k)) => if k.public_key == expected {
            Ok(Some(k))
        } else {
            Err(ImportFailure::MismatchedPublicKeys)
        },
        other => other,
    }
}

/// `old` replaced by `new` where there is a new key.
pub open spec fn replaced(old: Option<CrossSigningKeyView>, new: Option<CrossSigningKeyView>) -> Option<
    CrossSigningKeyView,
> {
    if new is Some {
        new
    } else {
        old
    }
}

/// The identity after keys were taken in: each key that was offered replaces
/// the one that was there.
pub open spec fn with_keys(
    identity: PrivateIdentityView,
    master: Option<CrossSigningKeyView>,
    self_signing: Option<CrossSigningKeyView>,
    user_signing: Option<CrossSigningKeyView>,
) -> PrivateIdentityView {
    PrivateIdentityView {
        user_id: identity.user_id,
        master_key: replaced(identity.master_key, master),
        self_signing_key: replaced(identity.self_signing_key, self_signing),
        user_signing_key: replaced(identity.user_signing_key, user_signing),
    }
}

/// The identity after a checked import: the seeds are looked at in the order
/// master, self-signing, user-signing; the first that does not decode or
/// does not belong to the public identity refuses the whole import.
pub open spec fn checked_import(
    identity: PrivateIdentityView,
    public: OwnUserIdentityDataView,
    master: Option<Seq<char>>,
    self_signing: Option<Seq<char>>,
    user_signing: Option<Seq<char>>,
) -> Result<PrivateIdentityView, ImportFailure> {
    match checked_key(master, public.master_key) {
        Err(e) => Err(e),
        Ok(m) => match checked_key(self_signing, public.self_signing_key) {
            Err(e) => Err(e),
            Ok(s) => match checked_key(user_signing, public.user_signing_key) {
                Err(e) => Err(e),
                Ok(u) => Ok(with_keys(identity, m, s, u)),
            },
        },
    }
}

/// The identity after an import that trusts its source: the seeds are looked
/// at in the order master, self-signing, user-signing; the first that does
/// not decode refuses the whole import.
pub open spec fn unchecked_import(
    identity: PrivateIdentityView,
    master: Option<Seq<char>>,
    self_signing: Option<Seq<char>>,
    user_signing: Option<Seq<char>>,
) -> Result<PrivateIdentityView, ImportFailure> {
    match offered_key(master) {
        Err(e) => Err(e),
        Ok(m) => match offered_key(self_signing) {
            Err(e) => Err(e),
            Ok(s) => match offered_key(user_signing) {
                Err(e) => Err(e),
                Ok(u) => Ok(with_keys(identity, m, s, u)),
            },
        },
    }
}

/// Whether the identity holds all three private keys, and each is the
/// private half of the corresponding key of the public identity.
pub open spec fn matches_public(identity: PrivateIdentityView, public: OwnUserIdentityDataView) -> bool {
    &&& identity.master_key matches Some(m) && m.public_key == public.master_key
    &&& identity.self_signing_key matches Some(s) && s.public_key == public.self_signing_key
    &&& identity.user_signing_key matches Some(u) && u.public_key == public.user_signing_key
}

/// The public identity that belongs to the private keys, marked as
/// verified, where all three keys are at hand.
pub open spec fn public_identity_of(identity: PrivateIdentityView) -> Option<OwnUserIdentityDataView> {
    match (identity.master_key, identity.self_signing_key, identity.user_signing_key) {
        (Some(m), Some(s), Some(u)) => Some(
            OwnUserIdentityDataView {
                user_id: identity.user_id,
                master_key: m.public_key,
                self_signing_key: s.public_key,
                user_signing_key: u.public_key,
                verified: true,
            },
        ),
        _ => None,
    }
}

/// The seed that the identity exports under a secret's name.
pub open spec fn exported_seed(identity: PrivateIdentityView, name: SecretNameView) -> Option<Seq<char>> {
    let key = match name {
        SecretNameView::CrossSigningMasterKey => identity.master_key,
        SecretNameView::CrossSigningSelfSigningKey => identity.self_signing_key,
        SecretNameView::CrossSigningUserSigningKey => identity.user_signing_key,
        _ => None,
    };
    match key {
        Some(k) => Some(k.seed),
        None => None,
    }
}

/// The model of a [`SecretName`].
pub enum SecretNameView {
    CrossSigningMasterKey,
    CrossSigningUserSigningKey,
    CrossSigningSelfSigningKey,
    RecoveryKey,
    Custom(Seq<char>),
}

impl View for SecretName {
    type V = SecretNameView;

    open spec fn view(&self) -> SecretNameView {
        match self {
            SecretName::CrossSigningMasterKey => SecretNameView::CrossSigningMasterKey,
            SecretName::CrossSigningUserSigningKey => SecretNameView::CrossSigningUserSigningKey,
            SecretName::CrossSigningSelfSigningKey => SecretNameView::CrossSigningSelfSigningKey,
            SecretName::RecoveryKey => SecretNameView::RecoveryKey,
            SecretName::Custom(name) => SecretNameView::Custom(name@),
        }
    }
}

/// The error that refuses an import for the given reason.
pub open spec fn refuses(e: SecretImportError, why: ImportFailure) -> bool {
    match why {
        ImportFailure::InvalidKey => e is Key,
        ImportFailure::MismatchedPublicKeys => e is MismatchedPublicKeys,
    }
}

/// Whether `e` is the error that the outcome of an import calls for.
pub open spec fn refused_with<T>(outcome: Result<T, ImportFailure>, e: SecretImportError) -> bool {
    match outcome {
        Err(why) => refuses(e, why),
        Ok(_) => false,
    }
}

/// What went wrong with the store.
#[derive(Debug)]
pub enum CryptoStoreError {
    /// The store holds no account, and none was given.
    AccountUnset,
    /// The backend failed.
    Backend(String),
    /// A value could not be written as bytes.
    Encode(rmp_serde::encode::Error),
    /// Bytes could not be read as a value.
    Decode(rmp_serde::decode::Error),
}

/// Why private cross-signing keys or the backup key could not be imported.
#[derive(Debug)]
pub enum SecretImportError {
    /// A key that was to be imported is not valid.
    Key(KeyError),
    /// An imported private key is not the private half of the public key
    /// that was uploaded.
    MismatchedPublicKeys,
    /// The new state of the identity could not be stored.
    Store(CryptoStoreError),
}

/// Why the secrets could not be exported as a bundle.
#[derive(Debug)]
pub enum SecretsBundleExportError {
    /// The store itself failed.
    Store(CryptoStoreError),
    /// One of the private cross-signing keys is missing.
    MissingCrossSigningKey(KeyUsage),
    /// All private cross-signing keys are missing.
    MissingCrossSigningKeys,
    /// There is a backup key, but the version of the backup is not known.
    MissingBackupVersion,
}

impl View for PrivateCrossSigningIdentity {
    type V = PrivateIdentityView;

    closed spec fn view(&self) -> PrivateIdentityView {
        PrivateIdentityView {
            user_id: self.user_id@,
            master_key: opt_key_view(self.master_key),
            self_signing_key: opt_key_view(self.self_signing_key),
            user_signing_key: opt_key_view(self.user_signing_key),
        }
    }
}

/// A copy of an optional key.
fn clone_opt_key(k: &Option<CrossSigningKey>) -> (r: Option<CrossSigningKey>)
    ensures
        opt_key_view(r) == opt_key_view(*k),
{
    match k {
        Some(x) => Some(x.clone()),
        None => None,
    }
}

/// Decodes a seed that was offered.
fn decode_offered(seed: Option<&str>) -> (r: Result<Option<CrossSigningKey>, SecretImportError>)
    ensures
        match r {
            Ok(k) => offered_key(opt_seed_view(seed)) == Ok::<
                Option<CrossSigningKeyView>,
                ImportFailure,
            >(opt_key_view(k)),
            Err(e) => refused_with(offered_key(opt_seed_view(seed)), e),
        },
{
    match seed {
        None => Ok(None),
        Some(s) => match CrossSigningKey::from_seed(s) {
            Ok(k) => Ok(Some(k)),
            Err(e) => Err(SecretImportError::Key(e)),
        },
    }
}

/// Decodes a seed that was offered and holds it against a public key.
fn decode_checked(seed: Option<&str>, expected: &String) -> (r: Result<
    Option<CrossSigningKey>,
    SecretImportError,
>)
    ensures
        match r {
            Ok(k) => checked_key(opt_seed_view(seed), expected@) == Ok::<
                Option<CrossSigningKeyView>,
                ImportFailure,
            >(opt_key_view(k)),
            Err(e) => refused_with(checked_key(opt_seed_view(seed), expected@), e),
        },
{
    match decode_offered(seed) {
        Ok(Some(k)) => {
            if k.public_key == *expected {
                Ok(Some(k))
            } else {
                Err(SecretImportError::MismatchedPublicKeys)
            }
        },
        Ok(None) => Ok(None),
        Err(e) => Err(e),
    }
}

/// The model of a seed that was offered.
pub open spec fn opt_seed_view(seed: Option<&str>) -> Option<Seq<char>> {
    match seed {
        Some(s) => Some(s@),
        None => None,
    }
}

impl Clone for PrivateCrossSigningIdentity {
    fn clone(&self) -> (r: Self)
        ensures
            r@ == self@,
    {
        PrivateCrossSigningIdentity {
            user_id: self.user_id.clone(),
            master_key: clone_opt_key(&self.master_key),
            self_signing_key: clone_opt_key(&self.self_signing_key),
            user_signing_key: clone_opt_key(&self.user_signing_key),
        }
    }
}

impl PrivateCrossSigningIdentity {
    /// An identity without private keys.
    pub fn empty(user_id: &str) -> (r: Self)
        ensures
            r@ == (PrivateIdentityView {
                user_id: user_id@,
                master_key: None,
                self_signing_key: None,
                user_signing_key: None,
            }),
    {
        PrivateCrossSigningIdentity {
            user_id: user_id.to_owned(),
            master_key: None,
            self_signing_key: None,
            user_signing_key: None,
        }
    }

    /// Forgets all private keys.
    pub fn reset(&mut self)
        ensures
            final(self)@ == (PrivateIdentityView {
                user_id: old(self)@.user_id,
                master_key: None,
                self_signing_key: None,
                user_signing_key: None,
            }),
    {
        self.master_key = None;
        self.self_signing_key = None;
        self.user_signing_key = None;
    }

    /// Which private keys are at hand.
    pub fn status(&self) -> (r: CrossSigningStatus)
        ensures
            r == (CrossSigningStatus {
                has_master: self@.master_key is Some,
                has_self_signing: self@.self_signing_key is Some,
                has_user_signing: self@.user_signing_key is Some,
            }),
    {
        CrossSigningStatus {
            has_master: self.master_key.is_some(),
            has_self_signing: self.self_signing_key.is_some(),
            has_user_signing: self.user_signing_key.is_some(),
        }
    }

    /// The seed of the key that goes by the name of a secret.
    pub fn export_secret(&self, secret_name: &SecretName) -> (r: Option<String>)
        ensures
            opt_str_view(r) == exported_seed(self@, secret_name@),
    {
        let key = match secret_name {
            SecretName::CrossSigningMasterKey => &self.master_key,
            SecretName::CrossSigningSelfSigningKey => &self.self_signing_key,
            SecretName::CrossSigningUserSigningKey => &self.user_signing_key,
            _ => {
                return None;
            },
        };
        match key {
            Some(k) => Some(k.seed.clone()),
            None => None,
        }
    }

    /// Takes in the keys that were decoded: each replaces the one at hand.
    fn store_keys(
        &mut self,
        master: Option<CrossSigningKey>,
        self_signing: Option<CrossSigningKey>,
        user_signing: Option<CrossSigningKey>,
    )
        ensures
            final(self)@ == with_keys(
                old(self)@,
                opt_key_view(master),
                opt_key_view(self_signing),
                opt_key_view(user_signing),
            ),
    {
        if master.is_some() {
            self.master_key = master;
        }
        if self_signing.is_some() {
            self.self_signing_key = self_signing;
        }
        if user_signing.is_some() {
            self.user_signing_key = user_signing;
        }
    }

    /// Imports private keys after holding each against the public identity.
    /// Nothing is taken in unless every seed decodes and belongs to the
    /// public key of its kind.
    pub fn import_secrets(
        &mut self,
        public_identity: &OwnUserIdentityData,
        master_key: Option<&str>,
        self_signing_key: Option<&str>,
        user_signing_key: Option<&str>,
    ) -> (r: Result<(), SecretImportError>)
        ensures
            match r {
                Ok(()) => checked_import(
                    old(self)@,
                    public_identity@,
                    opt_seed_view(master_key),
                    opt_seed_view(self_signing_key),
                    opt_seed_view(user_signing_key),
                ) == Ok::<PrivateIdentityView, ImportFailure>(final(self)@),
                Err(e) => final(self)@ == old(self)@ && refused_with(
                    checked_import(
                        old(self)@,
                        public_identity@,
                        opt_seed_view(master_key),
                        opt_seed_view(self_signing_key),
                        opt_seed_view(user_signing_key),
                    ),
                    e,
                ),
            },
    {
        let master = match decode_checked(master_key, &public_identity.master_key) {
            Ok(k) => k,
            Err(e) => {
                return Err(e);
            },
        };
        let self_signing = match decode_checked(self_signing_key, &public_identity.self_signing_key) {
            Ok(k) => k,
            Err(e) => {
                return Err(e);
            },
        };
        let user_signing = match decode_checked(user_signing_key, &public_identity.user_signing_key) {
            Ok(k) => k,
            Err(e) => {
                return Err(e);
            },
        };
        self.store_keys(master, self_signing, user_signing);
        Ok(())
    }

    /// Imports private keys from a source that is trusted. Nothing is taken
    /// in unless every seed decodes.
    pub fn import_secrets_unchecked(
        &mut self,
        master_key: Option<&str>,
        self_signing_key: Option<&str>,
        user_signing_key: Option<&str>,
    ) -> (r: Result<(), SecretImportError>)
        ensures
            match r {
                Ok(()) => unchecked_import(
                    old(self)@,
                    opt_seed_view(master_key),
                    opt_seed_view(self_signing_key),
                    opt_seed_view(user_signing_key),
                ) == Ok::<PrivateIdentityView, ImportFailure>(final(self)@),
                Err(e) => final(self)@ == old(self)@ && refused_with(
                    unchecked_import(
                        old(self)@,
                        opt_seed_view(master_key),
                        opt_seed_view(self_signing_key),
                        opt_seed_view(user_signing_key),
                    ),
                    e,
                ),
            },
    {
        let master = match decode_offered(master_key) {
            Ok(k) => k,
            Err(e) => {
                return Err(e);
            },
        };
        let self_signing = match decode_offered(self_signing_key) {
            Ok(k) => k,
            Err(e) => {
                return Err(e);
            },
        };
        let user_signing = match decode_offered(user_signing_key) {
            Ok(k) => k,
            Err(e) => {
                return Err(e);
            },
        };
        self.store_keys(master, self_signing, user_signing);
        Ok(())
    }

    /// Whether all three private keys are at hand and belong to the keys of
    /// the public identity.
    pub fn matches_public_identity(&self, public_identity: &OwnUserIdentityData) -> (r: bool)
        ensures
            r == matches_public(self@, public_identity@),
    {
        let master = match &self.master_key {
            Some(k) => k.public_key == public_identity.master_key,
            None => false,
        };
        let self_signing = match &self.self_signing_key {
            Some(k) => k.public_key == public_identity.self_signing_key,
            None => false,
        };
        let user_signing = match &self.user_signing_key {
            Some(k) => k.public_key == public_identity.user_signing_key,
            None => false,
        };
        master && self_signing && user_signing
    }

    /// The public identity that belongs to the private keys, marked as
    /// verified. There is one where all three keys are at hand.
    pub fn to_public_identity(&self) -> (r: Option<OwnUserIdentityData>)
        ensures
            crate::identities::opt_own_view(r) == public_identity_of(self@),
    {
        match (&self.master_key, &self.self_signing_key, &self.user_signing_key) {
            (Some(m), Some(s), Some(u)) => Some(
                OwnUserIdentityData {
                    user_id: self.user_id.clone(),
                    master_key: m.public_key.clone(),
                    self_signing_key: s.public_key.clone(),
                    user_signing_key: u.public_key.clone(),
                    verified: true,
                },
            ),
            _ => None,
        }
    }
}

/// The private cross-signing keys as they are exported: seeds in unpadded
/// base64.
#[derive(Debug)]
pub struct CrossSigningKeyExport {
    /// The seed of the master key.
    pub master_key: Option<String>,
    /// The seed of the self-signing key.
    pub self_signing_key: Option<String>,
    /// The seed of the user-signing key.
    pub user_signing_key: Option<String>,
}

/// The key that decrypts the key backup.
#[derive(Debug)]
pub struct BackupDecryptionKey {
    /// The bytes of the key.
    pub bytes: Vec<u8>,
}

impl BackupDecryptionKey {
    /// The key in unpadded base64.
    pub fn to_base64(&self) -> (r: String)
        ensures
            r@ == unpadded_base64(self.bytes@),
    {
        base64_encode(&self.bytes)
    }
}

impl Clone for BackupDecryptionKey {
    fn clone(&self) -> (r: Self)
        ensures
            r.bytes@ == self.bytes@,
    {
        BackupDecryptionKey { bytes: self.bytes.clone() }
    }
}

/// What the store holds of the key backup.
#[derive(Debug)]
pub struct BackupKeys {
    /// The key that decrypts the backup.
    pub decryption_key: Option<BackupDecryptionKey>,
    /// The version of the backup that the key belongs to.
    pub backup_version: Option<String>,
}

/// The three private cross-signing keys, as seeds in unpadded base64.
#[derive(Debug)]
pub struct CrossSigningSecrets {
    /// The seed of the master key.
    pub master_key: String,
    /// The seed of the user-signing key.
    pub user_signing_key: String,
    /// The seed of the self-signing key.
    pub self_signing_key: String,
}

/// The backup key with the version of the backup that it belongs to.
#[derive(Debug)]
pub struct MegolmBackupV1Curve25519AesSha2Secrets {
    /// The key that decrypts the backup.
    pub key: BackupDecryptionKey,
    /// The version of the backup.
    pub backup_version: String,
}

/// The secrets of a key backup, by the algorithm of the backup.
#[derive(Debug)]
pub enum BackupSecrets {
    /// A backup of the algorithm `m.megolm_backup.v1.curve25519-aes-sha2`.
    MegolmBackupV1Curve25519AesSha2(MegolmBackupV1Curve25519AesSha2Secrets),
}

/// The secrets that set up a new device: the three private cross-signing
/// keys and, where there is one, the backup key with its version.
#[derive(Debug)]
pub struct SecretsBundle {
    /// The private cross-signing keys.
    pub cross_signing: CrossSigningSecrets,
    /// The secrets of the key backup.
    pub backup: Option<BackupSecrets>,
}

/// The model of a [`SecretsBundle`].
pub struct SecretsBundleView {
    pub master_key: Seq<char>,
    pub user_signing_key: Seq<char>,
    pub self_signing_key: Seq<char>,
    /// The bytes of the backup key and the version of the backup.
    pub backup: Option<(Seq<u8>, Seq<char>)>,
}

impl View for SecretsBundle {
    type V = SecretsBundleView;

    open spec fn view(&self) -> SecretsBundleView {
        SecretsBundleView {
            master_key: self.cross_signing.master_key@,
            user_signing_key: self.cross_signing.user_signing_key@,
            self_signing_key: self.cross_signing.self_signing_key@,
            backup: match self.backup {
                Some(BackupSecrets::MegolmBackupV1Curve25519AesSha2(b)) => Some(
                    (b.key.bytes@, b.backup_version@),
                ),
                None => None,
            },
        }
    }
}

/// The model of what the store holds of the key backup.
pub struct BackupKeysView {
    pub decryption_key: Option<Seq<u8>>,
    pub backup_version: Option<Seq<char>>,
}

impl View for BackupKeys {
    type V = BackupKeysView;

    open spec fn view(&self) -> BackupKeysView {
        BackupKeysView {
            decryption_key: match self.decryption_key {
                Some(k) => Some(k.bytes@),
                None => None,
            },
            backup_version: opt_str_view(self.backup_version),
        }
    }
}

/// Why a bundle cannot be exported.
pub enum ExportFailure {
    MissingCrossSigningKey(KeyUsage),
    MissingCrossSigningKeys,
    MissingBackupVersion,
}

/// The bundle that the secrets at hand make, or why they make none.
///
/// All three private cross-signing keys have to be at hand: where none is,
/// the bundle fails for want of all keys; otherwise for the first that is
/// missing, in the order master, user-signing, self-signing. A backup key is
/// part of the bundle only together with the version of its backup; a
/// backup key without a version fails the bundle.
pub open spec fn secrets_bundle_of(identity: PrivateIdentityView, backup: BackupKeysView) -> Result<
    SecretsBundleView,
    ExportFailure,
> {
    if identity.master_key is None && identity.self_signing_key is None
        && identity.user_signing_key is None {
        Err(ExportFailure::MissingCrossSigningKeys)
    } else if identity.master_key is None {
        Err(ExportFailure::MissingCrossSigningKey(KeyUsage::Master))
    } else if identity.user_signing_key is None {
        Err(ExportFailure::MissingCrossSigningKey(KeyUsage::UserSigning))
    } else if identity.self_signing_key is None {
        Err(ExportFailure::MissingCrossSigningKey(KeyUsage::SelfSigning))
    } else if backup.decryption_key is Some && backup.backup_version is None {
        Err(ExportFailure::MissingBackupVersion)
    } else {
        Ok(
            SecretsBundleView {
                master_key: identity.master_key.unwrap().seed,
                user_signing_key: identity.user_signing_key.unwrap().seed,
                self_signing_key: identity.self_signing_key.unwrap().seed,
                backup: match backup.decryption_key {
                    Some(key) => Some((key, backup.backup_version.unwrap())),
                    None => None,
                },
            },
        )
    }
}

/// Whether an error is the one that a failure calls for.
pub open spec fn reports(e: SecretsBundleExportError, why: ExportFailure) -> bool {
    match why {
        ExportFailure::MissingCrossSigningKey(usage) => e
            == SecretsBundleExportError::MissingCrossSigningKey(usage),
        ExportFailure::MissingCrossSigningKeys => e is MissingCrossSigningKeys,
        ExportFailure::MissingBackupVersion => e is MissingBackupVersion,
    }
}

/// A secret that another device sent.
#[derive(Debug)]
pub struct GossippedSecret {
    /// The name of the secret.
    pub secret_name: SecretName,
    /// The secret, in unpadded base64.
    pub secret: String,
}

} // verus!
