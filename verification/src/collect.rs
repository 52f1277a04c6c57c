//! The parent collector: walks one host's tree and emits, for every virtual
//! device found, a copy of that device's immediate parent (with the parent's
//! full child set as of the scan).

use vstd::prelude::*;

use crate::device::{
    Device, DeviceView, is_virtual, lemma_view_children, lemma_views_complete, views,
};

verus! {

/// A virtual device stood at the root of a tree, where it has no parent.
/// A well-formed scan can never produce such a tree; the reconciliation of
/// the offending snapshot is abandoned rather than a parent invented.
#[derive(Debug, PartialEq, Eq, Structural)]
pub struct VirtualRootError;

/// The parents emitted while walking the first `n` children of `parent`,
/// in child order: a virtual child emits `parent` itself (and is not walked
/// into); any other child is walked recursively.
pub open spec fn collect_children(parent: DeviceView, cs: Seq<DeviceView>, n: int) -> Seq<
    DeviceView,
>
    decreases cs, n,
{
    if n <= 0 || n > cs.len() {
        Seq::empty()
    } else {
        collect_children(parent, cs, n - 1) + (if cs[n - 1].is_virtual() {
            seq![parent]
        } else {
            collect_parents(cs[n - 1])
        })
    }
}

/// Every parent of a virtual device in the tree under `d`, one emission per
/// virtual device found, in depth-first pre-order. The walk never looks
/// through a virtual device, so only the first level of virtualization on
/// each branch is captured. Meaningful when `d` is not itself virtual.
pub open spec fn collect_parents(d: DeviceView) -> Seq<DeviceView>
    decreases d, 1int,
{
    if d is Dataset {
        Seq::empty()
    } else {
        collect_children(d, d.children(), d.children().len() as int)
    }
}

fn collect_from(d: &Device) -> (r: Vec<Device>)
    requires
        !d@.is_virtual(),
    ensures
        views(r@) == collect_parents(d@),
    decreases *d, 1int,
{
    match d {
        Device::Root { children } => {
            proof {
                lemma_views_complete(children@);
            }
            collect_from_children(d, children)
        },
        Device::ScsiDevice { children, .. } => {
            proof {
                lemma_views_complete(children@);
            }
            collect_from_children(d, children)
        },
        Device::Partition { children, .. } => {
            proof {
                lemma_views_complete(children@);
            }
            collect_from_children(d, children)
        },
        Device::Mpath { children, .. } => {
            proof {
                lemma_views_complete(children@);
            }
            collect_from_children(d, children)
        },
        // unreachable: the remaining variants are virtual, which the
        // precondition rules out
        Device::MdRaid { .. } => Vec::new(),
        Device::VolumeGroup { .. } => Vec::new(),
        Device::LogicalVolume { .. } => Vec::new(),
        Device::Zpool { .. } => Vec::new(),
        Device::Dataset { .. } => Vec::new(),
    }
}

fn collect_from_children(parent: &Device, cs: &Vec<Device>) -> (r: Vec<Device>)
    requires
        parent@.children() == views(cs@),
    ensures
        views(r@) == collect_children(parent@, views(cs@), cs@.len() as int),
    decreases cs@, 0int,
{
    let mut r: Vec<Device> = Vec::new();
    let mut i: usize = 0;
    proof {
        lemma_view_children(cs@, cs@.len() as int);
        assert(views(r@) =~= collect_children(parent@, views(cs@), 0));
    }
    while i < cs.len()
        invariant
            0 <= i <= cs@.len(),
            parent@.children() == views(cs@),
            forall|j: int| 0 <= j < cs@.len() ==> views(cs@)[j] == cs@[j]@,
            views(r@) == collect_children(parent@, views(cs@), i as int),
        decreases cs@.len() - i,
    {
        let ghost pre = r@;
        let c = &cs[i];
        if is_virtual(c) {
            let p = parent.duplicate();
            r.push(p);
            proof {
                assert(views(r@) =~= views(pre).push(parent@));
                assert(views(r@) =~= collect_children(parent@, views(cs@), i + 1));
            }
        } else {
            let mut sub = collect_from(c);
            let ghost subv = sub@;
            r.append(&mut sub);
            proof {
                assert(views(r@) =~= views(pre) + views(subv));
                assert(views(r@) =~= collect_children(parent@, views(cs@), i + 1));
            }
        }
        i = i + 1;
    }
    r
}

/// Walks the tree under `d` and returns a copy of the immediate parent of
/// every virtual device found, in depth-first pre-order, one copy per
/// virtual device (duplicates retained). Fails precisely when `d` is itself
/// virtual, the one internal invariant a well-formed scan can never break.
pub fn collect_virtual_device_parents(d: &Device) -> (r: Result<Vec<Device>, VirtualRootError>)
    ensures
        r is Err <==> d@.is_virtual(),
        r matches Ok(v) ==> views(v@) == collect_parents(d@),
{
    if is_virtual(d) {
        Err(VirtualRootError)
    } else {
        Ok(collect_from(d))
    }
}

} // verus!
