//! The merger: grafts one donor parent (collected on another host) onto a
//! target tree, replacing the first node that stands for the same device.

use vstd::prelude::*;

use crate::device::{
    Device, DeviceView, compare_without_children, duplicate_serial, lemma_views_complete,
    same_identity, views,
};

verus! {

/// Whether any of the first `n` nodes of `cs` (or their descendants)
/// stands for the same device as `donor`.
pub open spec fn seq_has_match(cs: Seq<DeviceView>, donor: DeviceView, n: int) -> bool
    decreases cs, n,
{
    if n <= 0 || n > cs.len() {
        false
    } else {
        seq_has_match(cs, donor, n - 1) || has_match(cs[n - 1], donor)
    }
}

/// Whether some node of the tree under `t` (including `t` itself) stands
/// for the same device as `donor`.
pub open spec fn has_match(t: DeviceView, donor: DeviceView) -> bool
    decreases t, 1int,
{
    same_identity(t, donor) || (t !is Dataset && seq_has_match(
        t.children(),
        donor,
        t.children().len() as int,
    ))
}

/// The first `n` children of `cs` after merging `donor`: left to right, the
/// first child whose subtree holds a match absorbs the donor; children after
/// it are untouched.
pub open spec fn merged_children(cs: Seq<DeviceView>, donor: DeviceView, n: int) -> Seq<DeviceView>
    decreases cs, n,
{
    if n <= 0 || n > cs.len() {
        Seq::empty()
    } else {
        let pre = merged_children(cs, donor, n - 1);
        if seq_has_match(cs, donor, n - 1) {
            pre.push(cs[n - 1])
        } else {
            pre.push(merge(cs[n - 1], donor))
        }
    }
}

/// The tree under `t` after merging `donor`: the first node, in depth-first
/// pre-order, that stands for the same device as `donor` is replaced by
/// `donor` wholesale — the donor's child set supersedes whatever the node
/// had. With no such node the tree is unchanged.
pub open spec fn merge(t: DeviceView, donor: DeviceView) -> DeviceView
    decreases t, 1int,
{
    if same_identity(t, donor) {
        donor
    } else if t is Dataset {
        t
    } else {
        t.with_children(merged_children(t.children(), donor, t.children().len() as int))
    }
}

/// The tree after merging the first `n` donors of `donors`, oldest first.
pub open spec fn merge_all(t: DeviceView, donors: Seq<DeviceView>, n: int) -> DeviceView
    decreases n,
{
    if n <= 0 || n > donors.len() {
        t
    } else {
        merge(merge_all(t, donors, n - 1), donors[n - 1])
    }
}

fn merge_node(t: &Device, donor: &Device) -> (r: (Device, bool))
    ensures
        r.0@ == merge(t@, donor@),
        r.1 == has_match(t@, donor@),
    decreases *t, 1int,
{
    if compare_without_children(t, donor) {
        (donor.duplicate(), true)
    } else {
        match t {
            Device::Root { children } => {
                let (cs, m) = merge_node_children(children, donor);
                proof {
                    lemma_views_complete(children@);
                    lemma_views_complete(cs@);
                }
                (Device::Root { children: cs }, m)
            },
            Device::ScsiDevice { serial, children } => {
                let (cs, m) = merge_node_children(children, donor);
                proof {
                    lemma_views_complete(children@);
                    lemma_views_complete(cs@);
                }
                (Device::ScsiDevice { serial: duplicate_serial(serial), children: cs }, m)
            },
            Device::Partition { serial, children } => {
                let (cs, m) = merge_node_children(children, donor);
                proof {
                    lemma_views_complete(children@);
                    lemma_views_complete(cs@);
                }
                (Device::Partition { serial: duplicate_serial(serial), children: cs }, m)
            },
            Device::Mpath { serial, children } => {
                let (cs, m) = merge_node_children(children, donor);
                proof {
                    lemma_views_complete(children@);
                    lemma_views_complete(cs@);
                }
                (Device::Mpath { serial: duplicate_serial(serial), children: cs }, m)
            },
            Device::MdRaid { uuid, children } => {
                let (cs, m) = merge_node_children(children, donor);
                proof {
                    lemma_views_complete(children@);
                    lemma_views_complete(cs@);
                }
                (Device::MdRaid { uuid: uuid.clone(), children: cs }, m)
            },
            Device::VolumeGroup { name, children } => {
                let (cs, m) = merge_node_children(children, donor);
                proof {
                    lemma_views_complete(children@);
                    lemma_views_complete(cs@);
                }
                (Device::VolumeGroup { name: name.clone(), children: cs }, m)
            },
            Device::LogicalVolume { uuid, children } => {
                let (cs, m) = merge_node_children(children, donor);
                proof {
                    lemma_views_complete(children@);
                    lemma_views_complete(cs@);
                }
                (Device::LogicalVolume { uuid: uuid.clone(), children: cs }, m)
            },
            Device::Zpool { guid, children } => {
                let (cs, m) = merge_node_children(children, donor);
                proof {
                    lemma_views_complete(children@);
                    lemma_views_complete(cs@);
                }
                (Device::Zpool { guid: guid.clone(), children: cs }, m)
            },
            Device::Dataset { guid } => (Device::Dataset { guid: guid.clone() }, false),
        }
    }
}

fn merge_node_children(cs: &Vec<Device>, donor: &Device) -> (r: (Vec<Device>, bool))
    ensures
        views(r.0@) == merged_children(views(cs@), donor@, cs@.len() as int),
        r.1 == seq_has_match(views(cs@), donor@, cs@.len() as int),
    decreases cs@, 0int,
{
    let mut out: Vec<Device> = Vec::new();
    let mut matched = false;
    let mut i: usize = 0;
    proof {
        assert(views(out@) =~= merged_children(views(cs@), donor@, 0));
    }
    while i < cs.len()
        invariant
            0 <= i <= cs@.len(),
            forall|j: int| 0 <= j < cs@.len() ==> views(cs@)[j] == cs@[j]@,
            views(out@) == merged_children(views(cs@), donor@, i as int),
            matched == seq_has_match(views(cs@), donor@, i as int),
        decreases cs@.len() - i,
    {
        let ghost pre = out@;
        if matched {
            let c = cs[i].duplicate();
            out.push(c);
            proof {
                assert(views(out@) =~= views(pre).push(cs@[i as int]@));
                assert(views(out@) =~= merged_children(views(cs@), donor@, i + 1));
            }
        } else {
            let (m, rep) = merge_node(&cs[i], donor);
            out.push(m);
            matched = rep;
            proof {
                assert(views(out@) =~= views(pre).push(merge(cs@[i as int]@, donor@)));
                assert(views(out@) =~= merged_children(views(cs@), donor@, i + 1));
            }
        }
        i = i + 1;
    }
    (out, matched)
}

/// Merges one donor into the tree behind `d`: the first node, in depth-first
/// pre-order, that stands for the same device as `to_insert` is replaced by
/// a copy of `to_insert`, children and all. When nothing matches — a donor
/// collected on one host need not apply to another host's tree — the tree is
/// left as it was.
pub fn insert(d: &mut Device, to_insert: &Device)
    ensures
        final(d)@ == merge(old(d)@, to_insert@),
{
    let r = merge_node(&*d, to_insert);
    *d = r.0;
}

/// Merges every donor of `parents`, in order, into the tree behind `d`.
pub fn insert_virtual_devices(d: &mut Device, parents: &Vec<Device>)
    ensures
        final(d)@ == merge_all(old(d)@, views(parents@), parents@.len() as int),
{
    let ghost orig = d@;
    let mut i: usize = 0;
    while i < parents.len()
        invariant
            0 <= i <= parents@.len(),
            orig == old(d)@,
            forall|j: int| 0 <= j < parents@.len() ==> views(parents@)[j] == parents@[j]@,
            d@ == merge_all(orig, views(parents@), i as int),
        decreases parents@.len() - i,
    {
        insert(d, &parents[i]);
        i = i + 1;
    }
}

} // verus!
