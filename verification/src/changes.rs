//! What an operation asks the caller to persist.

use crate::caches::{opt_account_view, Account, AccountView};
use crate::identities::{opt_str_view, DeviceDataView, UserIdentityDataView};
use crate::import::session_views;
use crate::room_key::{InboundGroupSession, SessionView};
use crate::secrets::{BackupDecryptionKey, PrivateCrossSigningIdentity, PrivateIdentityView};
use crate::updates::{device_data_views, identity_views, DeviceChanges, IdentityChanges};
use vstd::prelude::*;

verus! {

/// Changes to persist in one write.
pub struct Changes {
    /// The private cross-signing keys, where they changed.
    pub private_identity: Option<PrivateCrossSigningIdentity>,
    /// The version of the key backup, where it changed.
    pub backup_version: Option<String>,
    /// The key that decrypts the key backup, where it changed.
    pub backup_decryption_key: Option<BackupDecryptionKey>,
    /// The user identities that changed.
    pub identities: IdentityChanges,
    /// The devices that changed.
    pub devices: DeviceChanges,
    /// The room keys that changed.
    pub inbound_group_sessions: Vec<InboundGroupSession>,
}

/// The model of [`Changes`].
pub struct ChangesView {
    /// The private cross-signing keys, where they changed.
    pub private_identity: Option<PrivateIdentityView>,
    /// The version of the key backup, where it changed.
    pub backup_version: Option<Seq<char>>,
    /// The bytes of the key that decrypts the key backup, where it changed.
    pub backup_decryption_key: Option<Seq<u8>>,
    /// The user identities that are new.
    pub new_identities: Seq<UserIdentityDataView>,
    /// The user identities that changed.
    pub changed_identities: Seq<UserIdentityDataView>,
    /// The user identities that were looked at and found as they were.
    pub unchanged_identities: Seq<UserIdentityDataView>,
    /// The devices that are new.
    pub new_devices: Seq<DeviceDataView>,
    /// The devices that changed.
    pub changed_devices: Seq<DeviceDataView>,
    /// The devices that were removed.
    pub deleted_devices: Seq<DeviceDataView>,
    /// The room keys that changed.
    pub inbound_group_sessions: Seq<SessionView>,
}

impl View for Changes {
    type V = ChangesView;

    open spec fn view(&self) -> ChangesView {
        ChangesView {
            private_identity: match self.private_identity {
                Some(i) => Some(i@),
                None => None,
            },
            backup_version: opt_str_view(self.backup_version),
            backup_decryption_key: match self.backup_decryption_key {
                Some(k) => Some(k.bytes@),
                None => None,
            },
            new_identities: identity_views(self.identities.new@),
            changed_identities: identity_views(self.identities.changed@),
            unchanged_identities: identity_views(self.identities.unchanged@),
            new_devices: device_data_views(self.devices.new@),
            changed_devices: device_data_views(self.devices.changed@),
            deleted_devices: device_data_views(self.devices.deleted@),
            inbound_group_sessions: session_views(self.inbound_group_sessions@),
        }
    }
}

/// The model of changes that change nothing.
pub open spec fn no_changes() -> ChangesView {
    ChangesView {
        private_identity: None,
        backup_version: None,
        backup_decryption_key: None,
        new_identities: Seq::empty(),
        changed_identities: Seq::empty(),
        unchanged_identities: Seq::empty(),
        new_devices: Seq::empty(),
        changed_devices: Seq::empty(),
        deleted_devices: Seq::empty(),
        inbound_group_sessions: Seq::empty(),
    }
}

impl Changes {
    /// Changes that change nothing.
    pub fn empty() -> (r: Changes)
        ensures
            r@ == no_changes(),
    {
        let r = Changes {
            private_identity: None,
            backup_version: None,
            backup_decryption_key: None,
            identities: IdentityChanges { new: Vec::new(), changed: Vec::new(), unchanged: Vec::new() },
            devices: DeviceChanges { new: Vec::new(), changed: Vec::new(), deleted: Vec::new() },
            inbound_group_sessions: Vec::new(),
        };
        proof {
            assert(r@.new_identities =~= Seq::empty());
            assert(r@.changed_identities =~= Seq::empty());
            assert(r@.unchanged_identities =~= Seq::empty());
            assert(r@.new_devices =~= Seq::empty());
            assert(r@.changed_devices =~= Seq::empty());
            assert(r@.deleted_devices =~= Seq::empty());
            assert(r@.inbound_group_sessions =~= Seq::empty());
        }
        r
    }
}

/// The changes that a transaction has gathered and not yet committed.
pub struct PendingChanges {
    /// The account, once the transaction has taken it for a change.
    pub account: Option<Account>,
}

impl View for PendingChanges {
    type V = Option<AccountView>;

    open spec fn view(&self) -> Option<AccountView> {
        opt_account_view(self.account)
    }
}

impl PendingChanges {
    /// No changes.
    pub fn new() -> (r: PendingChanges)
        ensures
            r@ is None,
    {
        PendingChanges { account: None }
    }

    /// Whether there is nothing to persist.
    pub fn is_empty(&self) -> (r: bool)
        ensures
            r == self@ is None,
    {
        self.account.is_none()
    }
}

} // verus!
