//! The projection of raw identity and device changes into the update sets
//! that callers receive.
//!
//! Every device is handed out with the identity of its owner, looked up by
//! user among the new, then the changed, then the unchanged identities of the
//! same change set. Nothing here reads or writes the store.

use crate::identities::{
    opt_own_view, Device, DeviceData, DeviceDataView, DeviceView, OwnUserIdentityData,
    OwnUserIdentityDataView, UserIdentity, UserIdentityData, UserIdentityDataView,
    UserIdentityView, VerificationMachine, VerificationMachineView,
};
use crate::nested_map::NestedMap;
use crate::sorted_map::SortedMap;
use vstd::prelude::*;

verus! {

/// The identities that one change to the store touched.
pub struct IdentityChanges {
    /// Identities that the store did not hold before.
    pub new: Vec<UserIdentityData>,
    /// Identities that the store held in another state.
    pub changed: Vec<UserIdentityData>,
    /// Identities that were looked at and found as they were.
    pub unchanged: Vec<UserIdentityData>,
}

/// The devices that one change to the store touched.
pub struct DeviceChanges {
    /// Devices that the store did not hold before.
    pub new: Vec<DeviceData>,
    /// Devices that the store held in another state.
    pub changed: Vec<DeviceData>,
    /// Devices that were removed.
    pub deleted: Vec<DeviceData>,
}

/// The device updates handed to callers: by user, then by device.
pub struct DeviceUpdates {
    /// Devices that are new.
    pub new: NestedMap<Device>,
    /// Devices that changed.
    pub changed: NestedMap<Device>,
}

/// The identity updates handed to callers, by user.
pub struct IdentityUpdates {
    /// Identities that are new.
    pub new: SortedMap<UserIdentity>,
    /// Identities that changed.
    pub changed: SortedMap<UserIdentity>,
    /// Identities that were looked at and found as they were.
    pub unchanged: SortedMap<UserIdentity>,
}

/// The models of a list of identities.
pub open spec fn identity_views(ids: Seq<UserIdentityData>) -> Seq<UserIdentityDataView> {
    ids.map_values(|i: UserIdentityData| i@)
}

/// The models of a list of devices.
pub open spec fn device_data_views(devices: Seq<DeviceData>) -> Seq<DeviceDataView> {
    devices.map_values(|d: DeviceData| d@)
}

/// A list of identities as a map by user; of two identities of one user the
/// later one stays.
pub open spec fn identities_by_user(ids: Seq<UserIdentityDataView>) -> Map<
    Seq<char>,
    UserIdentityDataView,
>
    decreases ids.len(),
{
    if ids.len() == 0 {
        Map::empty()
    } else {
        identities_by_user(ids.drop_last()).insert(ids.last().user_id(), ids.last())
    }
}

/// The identity of `user` in a change set: the new one, else the changed
/// one, else the unchanged one.
pub open spec fn owner_identity(
    new: Map<Seq<char>, UserIdentityDataView>,
    changed: Map<Seq<char>, UserIdentityDataView>,
    unchanged: Map<Seq<char>, UserIdentityDataView>,
    user: Seq<char>,
) -> Option<UserIdentityDataView> {
    if new.dom().contains(user) {
        Some(new[user])
    } else if changed.dom().contains(user) {
        Some(changed[user])
    } else if unchanged.dom().contains(user) {
        Some(unchanged[user])
    } else {
        None
    }
}

/// What is said once for all devices of a projection.
pub struct ProjectionContext {
    /// The verification machinery that every device carries.
    pub verification_machine: VerificationMachineView,
    /// The identity of the account's own user.
    pub own_identity: Option<OwnUserIdentityDataView>,
    /// The new identities of the change set, by user.
    pub new: Map<Seq<char>, UserIdentityDataView>,
    /// The changed identities of the change set, by user.
    pub changed: Map<Seq<char>, UserIdentityDataView>,
    /// The unchanged identities of the change set, by user.
    pub unchanged: Map<Seq<char>, UserIdentityDataView>,
}

/// The device that callers receive for a stored device.
pub open spec fn projected_device(cx: ProjectionContext, device: DeviceDataView) -> DeviceView {
    DeviceView {
        inner: device,
        verification_machine: cx.verification_machine,
        own_identity: cx.own_identity,
        device_owner_identity: owner_identity(cx.new, cx.changed, cx.unchanged, device.user_id),
    }
}

/// A list of devices as a map by user and device; of two entries of one
/// device the later one stays.
pub open spec fn projected_devices(cx: ProjectionContext, devices: Seq<DeviceDataView>) -> Map<
    (Seq<char>, Seq<char>),
    DeviceView,
>
    decreases devices.len(),
{
    if devices.len() == 0 {
        Map::empty()
    } else {
        projected_devices(cx, devices.drop_last()).insert(
            (devices.last().user_id, devices.last().device_id),
            projected_device(cx, devices.last()),
        )
    }
}

/// The identity that callers receive for a stored identity.
pub open spec fn projected_identity(
    verification_machine: VerificationMachineView,
    own_identity: Option<OwnUserIdentityDataView>,
    identity: UserIdentityDataView,
) -> UserIdentityView {
    UserIdentityView { inner: identity, verification_machine, own_identity }
}

/// Whether a map of identities holds, user by user, the given models.
pub open spec fn holds_identities(
    held: Map<Seq<char>, UserIdentityData>,
    models: Map<Seq<char>, UserIdentityDataView>,
) -> bool {
    &&& held.dom() == models.dom()
    &&& forall|u: Seq<char>| #[trigger] held.dom().contains(u) ==> held[u]@ == models[u]
}

/// Whether a map of devices holds, device by device, the given models.
pub open spec fn holds_devices(
    held: Map<(Seq<char>, Seq<char>), Device>,
    models: Map<(Seq<char>, Seq<char>), DeviceView>,
) -> bool {
    &&& held.dom() == models.dom()
    &&& forall|k: (Seq<char>, Seq<char>)| #[trigger] held.dom().contains(k) ==> held[k]@ == models[k]
}

/// Whether a map of identity updates holds, user by user, the projection of
/// the given identities.
pub open spec fn holds_identity_updates(
    held: Map<Seq<char>, UserIdentity>,
    verification_machine: VerificationMachineView,
    own_identity: Option<OwnUserIdentityDataView>,
    models: Map<Seq<char>, UserIdentityDataView>,
) -> bool {
    &&& held.dom() == models.dom()
    &&& forall|u: Seq<char>| #[trigger]
        held.dom().contains(u) ==> held[u]@ == projected_identity(
            verification_machine,
            own_identity,
            models[u],
        )
}

/// Turns a list of identities into a map by user.
pub fn identities_into_map(ids: &Vec<UserIdentityData>) -> (m: SortedMap<UserIdentityData>)
    ensures
        m.wf(),
        holds_identities(m@, identities_by_user(identity_views(ids@))),
{
    let mut m: SortedMap<UserIdentityData> = SortedMap::new();
    let ghost all = identity_views(ids@);
    let mut i: usize = 0;
    proof {
        assert(all.take(0) =~= Seq::<UserIdentityDataView>::empty());
    }
    while i < ids.len()
        invariant
            i <= ids@.len(),
            all == identity_views(ids@),
            m.wf(),
            holds_identities(m@, identities_by_user(all.take(i as int))),
        decreases ids@.len() - i,
    {
        let identity = ids[i].clone();
        proof {
            assert(all.take(i as int + 1).drop_last() =~= all.take(i as int));
            assert(all.take(i as int + 1).last() == identity@);
        }
        let ghost before = m@;
        let user = identity.user_id().clone();
        m.insert(user, identity);
        proof {
            let target = identities_by_user(all.take(i as int + 1));
            assert(m@.dom() =~= target.dom());
            assert forall|u: Seq<char>| #[trigger] m@.dom().contains(u) implies m@[u]@ == target[u] by {
                if u != identity@.user_id() {
                    assert(before.dom().contains(u));
                }
            }
        }
        i += 1;
    }
    proof {
        assert(all.take(ids@.len() as int) =~= all);
    }
    m
}

impl IdentityChanges {
    /// The three lists of identities as maps by user.
    pub fn into_maps(&self) -> (r: (
        SortedMap<UserIdentityData>,
        SortedMap<UserIdentityData>,
        SortedMap<UserIdentityData>,
    ))
        ensures
            r.0.wf(),
            r.1.wf(),
            r.2.wf(),
            holds_identities(r.0@, identities_by_user(identity_views(self.new@))),
            holds_identities(r.1@, identities_by_user(identity_views(self.changed@))),
            holds_identities(r.2@, identities_by_user(identity_views(self.unchanged@))),
    {
        (
            identities_into_map(&self.new),
            identities_into_map(&self.changed),
            identities_into_map(&self.unchanged),
        )
    }

    /// The context in which the devices of this change set are projected.
    pub open spec fn context(
        &self,
        verification_machine: VerificationMachineView,
        own_identity: Option<OwnUserIdentityDataView>,
    ) -> ProjectionContext {
        ProjectionContext {
            verification_machine,
            own_identity,
            new: identities_by_user(identity_views(self.new@)),
            changed: identities_by_user(identity_views(self.changed@)),
            unchanged: identities_by_user(identity_views(self.unchanged@)),
        }
    }
}

/// A copy of an optional own identity.
pub fn clone_own_identity(identity: &Option<OwnUserIdentityData>) -> (r: Option<OwnUserIdentityData>)
    ensures
        opt_own_view(r) == opt_own_view(*identity),
{
    match identity {
        Some(i) => Some(i.clone()),
        None => None,
    }
}

/// Attaches to a stored device the verification machinery, the own identity
/// and the identity of the device's owner.
fn map_device(
    device: &DeviceData,
    verification_machine: &VerificationMachine,
    own_identity: &Option<OwnUserIdentityData>,
    new: &SortedMap<UserIdentityData>,
    changed: &SortedMap<UserIdentityData>,
    unchanged: &SortedMap<UserIdentityData>,
    Ghost(cx): Ghost<ProjectionContext>,
) -> (r: Device)
    requires
        new.wf(),
        changed.wf(),
        unchanged.wf(),
        holds_identities(new@, cx.new),
        holds_identities(changed@, cx.changed),
        holds_identities(unchanged@, cx.unchanged),
        cx.verification_machine == verification_machine@,
        cx.own_identity == opt_own_view(*own_identity),
    ensures
        r@ == projected_device(cx, device@),
{
    let user = device.user_id.as_str();
    let found = match new.get(user) {
        Some(i) => Some(i),
        None => match changed.get(user) {
            Some(i) => Some(i),
            None => unchanged.get(user),
        },
    };
    let device_owner_identity = match found {
        Some(i) => Some(i.clone()),
        None => None,
    };
    Device {
        inner: device.clone(),
        verification_machine: verification_machine.clone(),
        own_identity: clone_own_identity(own_identity),
        device_owner_identity,
    }
}

/// Projects one list of devices into a map by user and device.
fn collect_devices(
    devices: &Vec<DeviceData>,
    verification_machine: &VerificationMachine,
    own_identity: &Option<OwnUserIdentityData>,
    new: &SortedMap<UserIdentityData>,
    changed: &SortedMap<UserIdentityData>,
    unchanged: &SortedMap<UserIdentityData>,
    Ghost(cx): Ghost<ProjectionContext>,
) -> (r: NestedMap<Device>)
    requires
        new.wf(),
        changed.wf(),
        unchanged.wf(),
        holds_identities(new@, cx.new),
        holds_identities(changed@, cx.changed),
        holds_identities(unchanged@, cx.unchanged),
        cx.verification_machine == verification_machine@,
        cx.own_identity == opt_own_view(*own_identity),
    ensures
        r.wf(),
        holds_devices(r@, projected_devices(cx, device_data_views(devices@))),
{
    let mut r: NestedMap<Device> = NestedMap::new();
    let ghost all = device_data_views(devices@);
    let mut i: usize = 0;
    proof {
        assert(all.take(0) =~= Seq::<DeviceDataView>::empty());
    }
    while i < devices.len()
        invariant
            i <= devices@.len(),
            all == device_data_views(devices@),
            new.wf(),
            changed.wf(),
            unchanged.wf(),
            holds_identities(new@, cx.new),
            holds_identities(changed@, cx.changed),
            holds_identities(unchanged@, cx.unchanged),
            cx.verification_machine == verification_machine@,
            cx.own_identity == opt_own_view(*own_identity),
            r.wf(),
            holds_devices(r@, projected_devices(cx, all.take(i as int))),
        decreases devices@.len() - i,
    {
        let data = &devices[i];
        proof {
            assert(all.take(i as int + 1).drop_last() =~= all.take(i as int));
            assert(all.take(i as int + 1).last() == data@);
        }
        let device = map_device(
            data,
            verification_machine,
            own_identity,
            new,
            changed,
            unchanged,
            Ghost(cx),
        );
        let ghost before = r@;
        r.insert(data.user_id.clone(), data.device_id.clone(), device);
        proof {
            let target = projected_devices(cx, all.take(i as int + 1));
            assert(r@.dom() =~= target.dom());
            assert forall|k: (Seq<char>, Seq<char>)| #[trigger] r@.dom().contains(k) implies r@[k]@
                == target[k] by {
                if k != (data@.user_id, data@.device_id) {
                    assert(before.dom().contains(k));
                }
            }
        }
        i += 1;
    }
    proof {
        assert(all.take(devices@.len() as int) =~= all);
    }
    r
}

/// Turns the devices of a change set into the devices that callers receive.
///
/// Each new and each changed device is handed out under its user and device
/// id, with the verification machinery, the own identity and the identity of
/// its owner attached. New devices stay new and changed ones changed.
pub fn collect_device_updates(
    verification_machine: VerificationMachine,
    own_identity: Option<OwnUserIdentityData>,
    identities: IdentityChanges,
    devices: DeviceChanges,
) -> (r: DeviceUpdates)
    ensures
        r.new.wf(),
        r.changed.wf(),
        holds_devices(
            r.new@,
            projected_devices(
                identities.context(verification_machine@, opt_own_view(own_identity)),
                device_data_views(devices.new@),
            ),
        ),
        holds_devices(
            r.changed@,
            projected_devices(
                identities.context(verification_machine@, opt_own_view(own_identity)),
                device_data_views(devices.changed@),
            ),
        ),
{
    let ghost cx = identities.context(verification_machine@, opt_own_view(own_identity));
    let (new_identities, changed_identities, unchanged_identities) = identities.into_maps();
    let new = collect_devices(
        &devices.new,
        &verification_machine,
        &own_identity,
        &new_identities,
        &changed_identities,
        &unchanged_identities,
        Ghost(cx),
    );
    let changed = collect_devices(
        &devices.changed,
        &verification_machine,
        &own_identity,
        &new_identities,
        &changed_identities,
        &unchanged_identities,
        Ghost(cx),
    );
    DeviceUpdates { new, changed }
}

/// Projects a map of identities into the identities that callers receive.
fn map_identities(
    identities: &SortedMap<UserIdentityData>,
    verification_machine: &VerificationMachine,
    own_identity: &Option<OwnUserIdentityData>,
    Ghost(models): Ghost<Map<Seq<char>, UserIdentityDataView>>,
) -> (r: SortedMap<UserIdentity>)
    requires
        identities.wf(),
        holds_identities(identities@, models),
    ensures
        r.wf(),
        holds_identity_updates(r@, verification_machine@, opt_own_view(*own_identity), models),
{
    let mut r: SortedMap<UserIdentity> = SortedMap::new();
    let n = identities.len();
    let mut i: usize = 0;
    while i < n
        invariant
            i <= n,
            n == identities.keys().len(),
            identities.wf(),
            holds_identities(identities@, models),
            r.wf(),
            forall|u: Seq<char>|
                r@.dom().contains(u) <==> exists|j: int|
                    0 <= j < i && #[trigger] identities.keys()[j] == u,
            forall|u: Seq<char>| #[trigger]
                r@.dom().contains(u) ==> r@[u]@ == projected_identity(
                    verification_machine@,
                    opt_own_view(*own_identity),
                    models[u],
                ),
        decreases n - i,
    {
        let user = identities.key_at(i).clone();
        let identity = identities.value_at(i).clone();
        proof {
            identities.lemma_entry(i as int);
        }
        let ghost before = r@;
        let ghost k = user@;
        r.insert(
            user,
            UserIdentity {
                inner: identity,
                verification_machine: verification_machine.clone(),
                own_identity: clone_own_identity(own_identity),
            },
        );
        proof {
            assert forall|u: Seq<char>|
                r@.dom().contains(u) <==> exists|j: int|
                    0 <= j < i + 1 && #[trigger] identities.keys()[j] == u by {
                if r@.dom().contains(u) {
                    if u == k {
                        assert(identities.keys()[i as int] == u);
                    } else {
                        assert(before.dom().contains(u));
                        let j = choose|j: int| 0 <= j < i && #[trigger] identities.keys()[j] == u;
                        assert(identities.keys()[j] == u);
                    }
                }
                if exists|j: int| 0 <= j < i + 1 && #[trigger] identities.keys()[j] == u {
                    let j = choose|j: int| 0 <= j < i + 1 && #[trigger] identities.keys()[j] == u;
                    if j < i {
                        assert(before.dom().contains(u));
                    }
                }
            }
        }
        i += 1;
    }
    proof {
        assert forall|u: Seq<char>| r@.dom().contains(u) <==> models.dom().contains(u) by {
            if r@.dom().contains(u) {
                let j = choose|j: int| 0 <= j < n && #[trigger] identities.keys()[j] == u;
                identities.lemma_entry(j);
            }
            if models.dom().contains(u) {
                assert(identities@.dom().contains(u));
                assert(identities.keys().contains(u));
                let j = choose|j: int| 0 <= j < identities.keys().len() && identities.keys()[j] == u;
                assert(identities.keys()[j] == u);
            }
        }
        assert(r@.dom() =~= models.dom());
    }
    r
}

/// Turns the identities of a change set into the identities that callers
/// receive: each under its user, with the verification machinery and the own
/// identity attached. New identities stay new, changed ones changed, and
/// unchanged ones unchanged.
pub fn collect_identity_updates(
    verification_machine: VerificationMachine,
    own_identity: Option<OwnUserIdentityData>,
    identities: IdentityChanges,
) -> (r: IdentityUpdates)
    ensures
        r.new.wf(),
        r.changed.wf(),
        r.unchanged.wf(),
        holds_identity_updates(
            r.new@,
            verification_machine@,
            opt_own_view(own_identity),
            identities_by_user(identity_views(identities.new@)),
        ),
        holds_identity_updates(
            r.changed@,
            verification_machine@,
            opt_own_view(own_identity),
            identities_by_user(identity_views(identities.changed@)),
        ),
        holds_identity_updates(
            r.unchanged@,
            verification_machine@,
            opt_own_view(own_identity),
            identities_by_user(identity_views(identities.unchanged@)),
        ),
{
    let (new_identities, changed_identities, unchanged_identities) = identities.into_maps();
    let new = map_identities(
        &new_identities,
        &verification_machine,
        &own_identity,
        Ghost(identities_by_user(identity_views(identities.new@))),
    );
    let changed = map_identities(
        &changed_identities,
        &verification_machine,
        &own_identity,
        Ghost(identities_by_user(identity_views(identities.changed@))),
    );
    let unchanged = map_identities(
        &unchanged_identities,
        &verification_machine,
        &own_identity,
        Ghost(identities_by_user(identity_views(identities.unchanged@))),
    );
    IdentityUpdates { new, changed, unchanged }
}

} // verus!
