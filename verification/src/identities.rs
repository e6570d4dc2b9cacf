//! Devices and user identities, as the store hands them to its callers.

use vstd::prelude::*;

verus! {

/// The model of an optional identifier.
pub open spec fn opt_str_view(s: Option<String>) -> Option<Seq<char>> {
    match s {
        Some(x) => Some(x@),
        None => None,
    }
}

/// A copy of an optional identifier.
pub fn clone_opt_str(s: &Option<String>) -> (r: Option<String>)
    ensures
        opt_str_view(r) == opt_str_view(*s),
{
    match s {
        Some(x) => Some(x.clone()),
        None => None,
    }
}

/// What the store records of one device of a user.
#[derive(Debug)]
pub struct DeviceData {
    /// The user that the device belongs to.
    pub user_id: String,
    /// The id of the device.
    pub device_id: String,
    /// The name that the user gave the device.
    pub display_name: Option<String>,
    /// The Curve25519 identity key of the device, in base64.
    pub curve25519_key: Option<String>,
}

/// The model of [`DeviceData`].
pub struct DeviceDataView {
    pub user_id: Seq<char>,
    pub device_id: Seq<char>,
    pub display_name: Option<Seq<char>>,
    pub curve25519_key: Option<Seq<char>>,
}

impl View for DeviceData {
    type V = DeviceDataView;

    open spec fn view(&self) -> DeviceDataView {
        DeviceDataView {
            user_id: self.user_id@,
            device_id: self.device_id@,
            display_name: opt_str_view(self.display_name),
            curve25519_key: opt_str_view(self.curve25519_key),
        }
    }
}

impl Clone for DeviceData {
    fn clone(&self) -> (r: Self)
        ensures
            r@ == self@,
    {
        DeviceData {
            user_id: self.user_id.clone(),
            device_id: self.device_id.clone(),
            display_name: clone_opt_str(&self.display_name),
            curve25519_key: clone_opt_str(&self.curve25519_key),
        }
    }
}
/// The public cross-signing identity of the account's own user.
#[derive(Debug)]
pub struct OwnUserIdentityData {
    /// The user that the identity belongs to.
    pub user_id: String,
    /// The public master key, in base64.
    pub master_key: String,
    /// The public self-signing key, in base64.
    pub self_signing_key: String,
    /// The public user-signing key, in base64.
    pub user_signing_key: String,
    /// Whether the identity is marked as verified.
    pub verified: bool,
}

/// The model of [`OwnUserIdentityData`].
pub struct OwnUserIdentityDataView {
    pub user_id: Seq<char>,
    pub master_key: Seq<char>,
    pub self_signing_key: Seq<char>,
    pub user_signing_key: Seq<char>,
    pub verified: bool,
}

impl View for OwnUserIdentityData {
    type V = OwnUserIdentityDataView;

    open spec fn view(&self) -> OwnUserIdentityDataView {
        OwnUserIdentityDataView {
            user_id: self.user_id@,
            master_key: self.master_key@,
            self_signing_key: self.self_signing_key@,
            user_signing_key: self.user_signing_key@,
            verified: self.verified,
        }
    }
}

impl Clone for OwnUserIdentityData {
    fn clone(&self) -> (r: Self)
        ensures
            r@ == self@,
    {
        OwnUserIdentityData {
            user_id: self.user_id.clone(),
            master_key: self.master_key.clone(),
            self_signing_key: self.self_signing_key.clone(),
            user_signing_key: self.user_signing_key.clone(),
            verified: self.verified,
        }
    }
}
/// The public cross-signing identity of another user.
#[derive(Debug)]
pub struct OtherUserIdentityData {
    /// The user that the identity belongs to.
    pub user_id: String,
    /// The public master key, in base64.
    pub master_key: String,
    /// The public self-signing key, in base64.
    pub self_signing_key: String,
}

/// The model of [`OtherUserIdentityData`].
pub struct OtherUserIdentityDataView {
    pub user_id: Seq<char>,
    pub master_key: Seq<char>,
    pub self_signing_key: Seq<char>,
}

impl View for OtherUserIdentityData {
    type V = OtherUserIdentityDataView;

    open spec fn view(&self) -> OtherUserIdentityDataView {
        OtherUserIdentityDataView {
            user_id: self.user_id@,
            master_key: self.master_key@,
            self_signing_key: self.self_signing_key@,
        }
    }
}

impl Clone for OtherUserIdentityData {
    fn clone(&self) -> (r: Self)
        ensures
            r@ == self@,
    {
        OtherUserIdentityData {
            user_id: self.user_id.clone(),
            master_key: self.master_key.clone(),
            self_signing_key: self.self_signing_key.clone(),
        }
    }
}
/// The public cross-signing identity of a user.
#[derive(Debug)]
pub enum UserIdentityData {
    /// The identity of the account's own user.
    Own(OwnUserIdentityData),
    /// The identity of another user.
    Other(OtherUserIdentityData),
}

/// The model of [`UserIdentityData`].
pub enum UserIdentityDataView {
    Own(OwnUserIdentityDataView),
    Other(OtherUserIdentityDataView),
}

impl UserIdentityDataView {
    /// The user that the identity belongs to.
    pub open spec fn user_id(self) -> Seq<char> {
        match self {
            UserIdentityDataView::Own(i) => i.user_id,
            UserIdentityDataView::Other(i) => i.user_id,
        }
    }

    /// The identity, where it is the own user's.
    pub open spec fn own(self) -> Option<OwnUserIdentityDataView> {
        match self {
            UserIdentityDataView::Own(i) => Some(i),
            UserIdentityDataView::Other(_) => None,
        }
    }
}

impl View for UserIdentityData {
    type V = UserIdentityDataView;

    open spec fn view(&self) -> UserIdentityDataView {
        match self {
            UserIdentityData::Own(i) => UserIdentityDataView::Own(i@),
            UserIdentityData::Other(i) => UserIdentityDataView::Other(i@),
        }
    }
}

impl Clone for UserIdentityData {
    fn clone(&self) -> (r: Self)
        ensures
            r@ == self@,
    {
        match self {
            UserIdentityData::Own(i) => UserIdentityData::Own(i.clone()),
            UserIdentityData::Other(i) => UserIdentityData::Other(i.clone()),
        }
    }
}

impl UserIdentityData {
    /// The user that the identity belongs to.
    pub fn user_id(&self) -> (r: &String)
        ensures
            r@ == self@.user_id(),
    {
        match self {
            UserIdentityData::Own(i) => &i.user_id,
            UserIdentityData::Other(i) => &i.user_id,
        }
    }

    /// The identity, where it is the own user's.
    pub fn own(&self) -> (r: Option<&OwnUserIdentityData>)
        ensures
            match r {
                Some(i) => self@.own() == Some(i@),
                None => self@.own() is None,
            },
    {
        match self {
            UserIdentityData::Own(i) => Some(i),
            UserIdentityData::Other(_) => None,
        }
    }
}

/// The model of an optional identity.
pub open spec fn opt_identity_view(i: Option<UserIdentityData>) -> Option<UserIdentityDataView> {
    match i {
        Some(x) => Some(x@),
        None => None,
    }
}

/// The model of an optional own identity.
pub open spec fn opt_own_view(i: Option<OwnUserIdentityData>) -> Option<OwnUserIdentityDataView> {
    match i {
        Some(x) => Some(x@),
        None => None,
    }
}

/// The own user's identity in an identity record, where the record is one.
pub open spec fn own_of(record: Option<UserIdentityDataView>) -> Option<OwnUserIdentityDataView> {
    match record {
        Some(i) => i.own(),
        None => None,
    }
}

/// The handle of the verification machinery that devices and identities carry.
#[derive(Debug)]
pub struct VerificationMachine {
    /// The user of the account.
    pub own_user_id: String,
    /// The device of the account.
    pub own_device_id: String,
}

/// The model of [`VerificationMachine`].
pub struct VerificationMachineView {
    pub own_user_id: Seq<char>,
    pub own_device_id: Seq<char>,
}

impl View for VerificationMachine {
    type V = VerificationMachineView;

    open spec fn view(&self) -> VerificationMachineView {
        VerificationMachineView {
            own_user_id: self.own_user_id@,
            own_device_id: self.own_device_id@,
        }
    }
}

impl Clone for VerificationMachine {
    fn clone(&self) -> (r: Self)
        ensures
            r@ == self@,
    {
        VerificationMachine {
            own_user_id: self.own_user_id.clone(),
            own_device_id: self.own_device_id.clone(),
        }
    }
}
/// A device together with what is needed to judge its trust.
#[derive(Debug)]
pub struct Device {
    /// What the store records of the device.
    pub inner: DeviceData,
    /// The verification machinery.
    pub verification_machine: VerificationMachine,
    /// The identity of the account's own user, where it is known.
    pub own_identity: Option<OwnUserIdentityData>,
    /// The identity of the user that owns the device, where it is known.
    pub device_owner_identity: Option<UserIdentityData>,
}

/// The model of [`Device`].
pub struct DeviceView {
    pub inner: DeviceDataView,
    pub verification_machine: VerificationMachineView,
    pub own_identity: Option<OwnUserIdentityDataView>,
    pub device_owner_identity: Option<UserIdentityDataView>,
}

impl View for Device {
    type V = DeviceView;

    open spec fn view(&self) -> DeviceView {
        DeviceView {
            inner: self.inner@,
            verification_machine: self.verification_machine@,
            own_identity: match self.own_identity {
                Some(x) => Some(x@),
                None => None,
            },
            device_owner_identity: match self.device_owner_identity {
                Some(x) => Some(x@),
                None => None,
            },
        }
    }
}

impl Clone for Device {
    fn clone(&self) -> (r: Self)
        ensures
            r@ == self@,
    {
        Device {
            inner: self.inner.clone(),
            verification_machine: self.verification_machine.clone(),
            own_identity: match &self.own_identity {
                Some(x) => Some(x.clone()),
                None => None,
            },
            device_owner_identity: match &self.device_owner_identity {
                Some(x) => Some(x.clone()),
                None => None,
            },
        }
    }
}
/// A user identity together with what is needed to judge its trust.
#[derive(Debug)]
pub struct UserIdentity {
    /// The public identity.
    pub inner: UserIdentityData,
    /// The verification machinery.
    pub verification_machine: VerificationMachine,
    /// The identity of the account's own user, where it is known.
    pub own_identity: Option<OwnUserIdentityData>,
}

/// The model of [`UserIdentity`].
pub struct UserIdentityView {
    pub inner: UserIdentityDataView,
    pub verification_machine: VerificationMachineView,
    pub own_identity: Option<OwnUserIdentityDataView>,
}

impl View for UserIdentity {
    type V = UserIdentityView;

    open spec fn view(&self) -> UserIdentityView {
        UserIdentityView {
            inner: self.inner@,
            verification_machine: self.verification_machine@,
            own_identity: match self.own_identity {
                Some(x) => Some(x@),
                None => None,
            },
        }
    }
}

impl Clone for UserIdentity {
    fn clone(&self) -> (r: Self)
        ensures
            r@ == self@,
    {
        UserIdentity {
            inner: self.inner.clone(),
            verification_machine: self.verification_machine.clone(),
            own_identity: match &self.own_identity {
                Some(x) => Some(x.clone()),
                None => None,
            },
        }
    }
}
} // verus!
