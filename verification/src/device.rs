//! The device model: one node of a host's block-device tree.

use vstd::prelude::*;

verus! {

/// One node of a host's block-device tree.
///
/// The variant tag together with the identity attribute (serial, uuid, name
/// or guid) identifies a device across hosts; the children are whatever the
/// reporting host happened to know sat on top of the device when it scanned.
/// `Dataset` is always a leaf; every other variant carries children.
#[derive(Debug, PartialEq, Eq)]
pub enum Device {
    Root { children: Vec<Device> },
    ScsiDevice { serial: Option<String>, children: Vec<Device> },
    Partition { serial: Option<String>, children: Vec<Device> },
    Mpath { serial: Option<String>, children: Vec<Device> },
    MdRaid { uuid: String, children: Vec<Device> },
    VolumeGroup { name: String, children: Vec<Device> },
    LogicalVolume { uuid: String, children: Vec<Device> },
    Zpool { guid: String, children: Vec<Device> },
    Dataset { guid: String },
}

/// The mathematical value of a [`Device`]: the same tree with strings as
/// character sequences and child vectors as sequences.
#[verifier::ext_equal]
pub enum DeviceView {
    Root { children: Seq<DeviceView> },
    ScsiDevice { serial: Option<Seq<char>>, children: Seq<DeviceView> },
    Partition { serial: Option<Seq<char>>, children: Seq<DeviceView> },
    Mpath { serial: Option<Seq<char>>, children: Seq<DeviceView> },
    MdRaid { uuid: Seq<char>, children: Seq<DeviceView> },
    VolumeGroup { name: Seq<char>, children: Seq<DeviceView> },
    LogicalVolume { uuid: Seq<char>, children: Seq<DeviceView> },
    Zpool { guid: Seq<char>, children: Seq<DeviceView> },
    Dataset { guid: Seq<char> },
}

pub open spec fn view_option_string(s: Option<String>) -> Option<Seq<char>> {
    match s {
        Option::None => Option::None,
        Option::Some(s) => Option::Some(s@),
    }
}

pub open spec fn view_children(cs: Seq<Device>, n: int) -> Seq<DeviceView>
    decreases cs, n,
{
    if n <= 0 || n > cs.len() {
        Seq::empty()
    } else {
        view_children(cs, n - 1).push(cs[n - 1]@)
    }
}

impl View for Device {
    type V = DeviceView;

    open spec fn view(&self) -> DeviceView
        decreases self,
    {
        match self {
            Device::Root { children } => DeviceView::Root {
                children: view_children(children@, children@.len() as int),
            },
            Device::ScsiDevice { serial, children } => DeviceView::ScsiDevice {
                serial: view_option_string(*serial),
                children: view_children(children@, children@.len() as int),
            },
            Device::Partition { serial, children } => DeviceView::Partition {
                serial: view_option_string(*serial),
                children: view_children(children@, children@.len() as int),
            },
            Device::Mpath { serial, children } => DeviceView::Mpath {
                serial: view_option_string(*serial),
                children: view_children(children@, children@.len() as int),
            },
            Device::MdRaid { uuid, children } => DeviceView::MdRaid {
                uuid: uuid@,
                children: view_children(children@, children@.len() as int),
            },
            Device::VolumeGroup { name, children } => DeviceView::VolumeGroup {
                name: name@,
                children: view_children(children@, children@.len() as int),
            },
            Device::LogicalVolume { uuid, children } => DeviceView::LogicalVolume {
                uuid: uuid@,
                children: view_children(children@, children@.len() as int),
            },
            Device::Zpool { guid, children } => DeviceView::Zpool {
                guid: guid@,
                children: view_children(children@, children@.len() as int),
            },
            Device::Dataset { guid } => DeviceView::Dataset { guid: guid@ },
        }
    }
}

impl DeviceView {
    /// The children of a node; a `Dataset` has none.
    pub open spec fn children(self) -> Seq<DeviceView> {
        match self {
            DeviceView::Root { children } => children,
            DeviceView::ScsiDevice { children, .. } => children,
            DeviceView::Partition { children, .. } => children,
            DeviceView::Mpath { children, .. } => children,
            DeviceView::MdRaid { children, .. } => children,
            DeviceView::VolumeGroup { children, .. } => children,
            DeviceView::LogicalVolume { children, .. } => children,
            DeviceView::Zpool { children, .. } => children,
            DeviceView::Dataset { .. } => Seq::empty(),
        }
    }

    /// The same node with its child set replaced; a `Dataset` is unchanged.
    pub open spec fn with_children(self, cs: Seq<DeviceView>) -> DeviceView {
        match self {
            DeviceView::Root { .. } => DeviceView::Root { children: cs },
            DeviceView::ScsiDevice { serial, .. } => DeviceView::ScsiDevice { serial, children: cs },
            DeviceView::Partition { serial, .. } => DeviceView::Partition { serial, children: cs },
            DeviceView::Mpath { serial, .. } => DeviceView::Mpath { serial, children: cs },
            DeviceView::MdRaid { uuid, .. } => DeviceView::MdRaid { uuid, children: cs },
            DeviceView::VolumeGroup { name, .. } => DeviceView::VolumeGroup { name, children: cs },
            DeviceView::LogicalVolume { uuid, .. } => DeviceView::LogicalVolume { uuid, children: cs },
            DeviceView::Zpool { guid, .. } => DeviceView::Zpool { guid, children: cs },
            DeviceView::Dataset { guid } => DeviceView::Dataset { guid },
        }
    }

    /// The node with an empty child set: exactly the part of a node that
    /// identifies the device it stands for.
    pub open spec fn identity(self) -> DeviceView {
        self.with_children(Seq::empty())
    }

    /// Whether the node was synthesized by an OS storage-virtualization
    /// layer, as opposed to being hardware-backed (or the tree root).
    pub open spec fn is_virtual(self) -> bool {
        match self {
            DeviceView::Root { .. } => false,
            DeviceView::ScsiDevice { .. } => false,
            DeviceView::Partition { .. } => false,
            DeviceView::Mpath { .. } => false,
            DeviceView::MdRaid { .. } => true,
            DeviceView::VolumeGroup { .. } => true,
            DeviceView::LogicalVolume { .. } => true,
            DeviceView::Zpool { .. } => true,
            DeviceView::Dataset { .. } => true,
        }
    }
}

/// Two nodes stand for the same device: same variant and same identity
/// attribute, children ignored on both sides.
pub open spec fn same_identity(a: DeviceView, b: DeviceView) -> bool {
    a.identity() == b.identity()
}

/// Whether `x` occurs among the first `n` nodes of `cs` or their
/// descendants.
pub open spec fn seq_contains_node(cs: Seq<DeviceView>, x: DeviceView, n: int) -> bool
    decreases cs, n,
{
    if n <= 0 || n > cs.len() {
        false
    } else {
        seq_contains_node(cs, x, n - 1) || contains_node(cs[n - 1], x)
    }
}

/// Whether the node `x`, child set and all, occurs in the tree under `t`
/// (including as `t` itself).
pub open spec fn contains_node(t: DeviceView, x: DeviceView) -> bool
    decreases t, 1int,
{
    t == x || (t !is Dataset && seq_contains_node(t.children(), x, t.children().len() as int))
}

/// The views of a sequence of devices, in order.
pub open spec fn views(cs: Seq<Device>) -> Seq<DeviceView> {
    Seq::new(cs.len(), |i: int| cs[i]@)
}

pub proof fn lemma_view_children(cs: Seq<Device>, n: int)
    requires
        0 <= n <= cs.len(),
    ensures
        view_children(cs, n).len() == n,
        forall|i: int| 0 <= i < n ==> view_children(cs, n)[i] == cs[i]@,
    decreases n,
{
    if n > 0 {
        lemma_view_children(cs, n - 1);
        assert(view_children(cs, n) == view_children(cs, n - 1).push(cs[n - 1]@));
    }
}

/// The child sequence inside a device's view is the sequence of the
/// children's views.
pub proof fn lemma_views_complete(cs: Seq<Device>)
    ensures
        view_children(cs, cs.len() as int) == views(cs),
{
    lemma_view_children(cs, cs.len() as int);
    assert(view_children(cs, cs.len() as int) =~= views(cs));
}

/// Whether the device was synthesized by an OS storage-virtualization layer
/// (software RAID, LVM, ZFS) rather than backed by hardware. Every variant
/// is classified explicitly: adding a variant forces a decision here.
pub fn is_virtual(d: &Device) -> (r: bool)
    ensures
        r == d@.is_virtual(),
{
    match d {
        Device::Root { .. } => false,
        Device::ScsiDevice { .. } => false,
        Device::Partition { .. } => false,
        Device::Mpath { .. } => false,
        Device::MdRaid { .. } => true,
        Device::VolumeGroup { .. } => true,
        Device::LogicalVolume { .. } => true,
        Device::Zpool { .. } => true,
        Device::Dataset { .. } => true,
    }
}

pub(crate) fn duplicate_serial(s: &Option<String>) -> (r: Option<String>)
    ensures
        view_option_string(r) == view_option_string(*s),
{
    match s {
        Option::None => Option::None,
        Option::Some(s) => Option::Some(s.clone()),
    }
}

fn duplicate_children(cs: &Vec<Device>) -> (r: Vec<Device>)
    ensures
        views(r@) == views(cs@),
        view_children(r@, r@.len() as int) == view_children(cs@, cs@.len() as int),
    decreases cs@, 0int,
{
    let mut r: Vec<Device> = Vec::new();
    let mut i: usize = 0;
    while i < cs.len()
        invariant
            0 <= i <= cs@.len(),
            r@.len() == i,
            forall|j: int| 0 <= j < i ==> r@[j]@ == cs@[j]@,
        decreases cs@.len() - i,
    {
        let c = cs[i].duplicate();
        r.push(c);
        i = i + 1;
    }
    proof {
        assert(views(r@) =~= views(cs@));
        lemma_view_children(r@, r@.len() as int);
        lemma_view_children(cs@, cs@.len() as int);
        assert(view_children(r@, r@.len() as int) =~= view_children(cs@, cs@.len() as int));
    }
    r
}

impl Device {
    /// A deep copy: the copy has the same view as the original.
    pub fn duplicate(&self) -> (r: Device)
        ensures
            r@ == self@,
        decreases *self, 1int,
    {
        match self {
            Device::Root { children } => Device::Root { children: duplicate_children(children) },
            Device::ScsiDevice { serial, children } => Device::ScsiDevice {
                serial: duplicate_serial(serial),
                children: duplicate_children(children),
            },
            Device::Partition { serial, children } => Device::Partition {
                serial: duplicate_serial(serial),
                children: duplicate_children(children),
            },
            Device::Mpath { serial, children } => Device::Mpath {
                serial: duplicate_serial(serial),
                children: duplicate_children(children),
            },
            Device::MdRaid { uuid, children } => Device::MdRaid {
                uuid: uuid.clone(),
                children: duplicate_children(children),
            },
            Device::VolumeGroup { name, children } => Device::VolumeGroup {
                name: name.clone(),
                children: duplicate_children(children),
            },
            Device::LogicalVolume { uuid, children } => Device::LogicalVolume {
                uuid: uuid.clone(),
                children: duplicate_children(children),
            },
            Device::Zpool { guid, children } => Device::Zpool {
                guid: guid.clone(),
                children: duplicate_children(children),
            },
            Device::Dataset { guid } => Device::Dataset { guid: guid.clone() },
        }
    }

    /// A copy of the node with an empty child set: only what identifies the
    /// device survives.
    pub fn without_children(&self) -> (r: Device)
        ensures
            r@ == self@.identity(),
    {
        match self {
            Device::Root { .. } => Device::Root { children: Vec::new() },
            Device::ScsiDevice { serial, .. } => Device::ScsiDevice {
                serial: duplicate_serial(serial),
                children: Vec::new(),
            },
            Device::Partition { serial, .. } => Device::Partition {
                serial: duplicate_serial(serial),
                children: Vec::new(),
            },
            Device::Mpath { serial, .. } => Device::Mpath {
                serial: duplicate_serial(serial),
                children: Vec::new(),
            },
            Device::MdRaid { uuid, .. } => Device::MdRaid {
                uuid: uuid.clone(),
                children: Vec::new(),
            },
            Device::VolumeGroup { name, .. } => Device::VolumeGroup {
                name: name.clone(),
                children: Vec::new(),
            },
            Device::LogicalVolume { uuid, .. } => Device::LogicalVolume {
                uuid: uuid.clone(),
                children: Vec::new(),
            },
            Device::Zpool { guid, .. } => Device::Zpool {
                guid: guid.clone(),
                children: Vec::new(),
            },
            Device::Dataset { guid } => Device::Dataset { guid: guid.clone() },
        }
    }
}

fn serial_eq(a: &Option<String>, b: &Option<String>) -> (r: bool)
    ensures
        r == (view_option_string(*a) == view_option_string(*b)),
{
    match (a, b) {
        (Option::None, Option::None) => true,
        (Option::Some(a), Option::Some(b)) => a.eq(b),
        _ => false,
    }
}

/// Whether two nodes stand for the same device: same variant and equal
/// identity attributes, child sets ignored on both sides.
pub fn compare_without_children(a: &Device, b: &Device) -> (r: bool)
    ensures
        r == same_identity(a@, b@),
{
    match (a, b) {
        (Device::Root { .. }, Device::Root { .. }) => true,
        (Device::ScsiDevice { serial: sa, .. }, Device::ScsiDevice { serial: sb, .. }) => {
            serial_eq(sa, sb)
        },
        (Device::Partition { serial: sa, .. }, Device::Partition { serial: sb, .. }) => {
            serial_eq(sa, sb)
        },
        (Device::Mpath { serial: sa, .. }, Device::Mpath { serial: sb, .. }) => serial_eq(sa, sb),
        (Device::MdRaid { uuid: ua, .. }, Device::MdRaid { uuid: ub, .. }) => ua.eq(ub),
        (Device::VolumeGroup { name: na, .. }, Device::VolumeGroup { name: nb, .. }) => na.eq(nb),
        (Device::LogicalVolume { uuid: ua, .. }, Device::LogicalVolume { uuid: ub, .. }) => {
            ua.eq(ub)
        },
        (Device::Zpool { guid: ga, .. }, Device::Zpool { guid: gb, .. }) => ga.eq(gb),
        (Device::Dataset { guid: ga }, Device::Dataset { guid: gb }) => ga.eq(gb),
        _ => false,
    }
}

} // verus!
