//! The reconciliation orchestrator: collects donor parents from every host
//! of a batch and applies every donor to every host's tree.

use vstd::prelude::*;

use crate::collect::{collect_parents, collect_virtual_device_parents};
use crate::device::{Device, DeviceView, is_virtual, views};
use crate::merge::{insert_virtual_devices, merge_all};

verus! {

/// A host's fully-qualified domain name.
#[derive(Debug, Clone, PartialEq, Eq)]
pub struct Fqdn(pub String);

impl View for Fqdn {
    type V = Seq<char>;

    open spec fn view(&self) -> Seq<char> {
        self.0@
    }
}

/// The views of a batch of per-host snapshots, in batch order.
pub open spec fn batch_views(s: Seq<(Fqdn, Device)>) -> Seq<(Seq<char>, DeviceView)> {
    Seq::new(s.len(), |i: int| (s[i].0@, s[i].1@))
}

/// The donor pool gathered from the first `n` snapshots: every parent the
/// collector emits, in host order and then in emission order, duplicates
/// retained. A malformed snapshot — its root itself virtual — contributes
/// nothing.
pub open spec fn donor_pool(snaps: Seq<(Seq<char>, DeviceView)>, n: int) -> Seq<DeviceView>
    decreases n,
{
    if n <= 0 || n > snaps.len() {
        Seq::empty()
    } else {
        donor_pool(snaps, n - 1) + (if snaps[n - 1].1.is_virtual() {
            Seq::empty()
        } else {
            collect_parents(snaps[n - 1].1)
        })
    }
}

/// The donor pool of a whole batch.
pub open spec fn batch_pool(s: Seq<(Fqdn, Device)>) -> Seq<DeviceView> {
    donor_pool(batch_views(s), s.len() as int)
}

/// One host's tree after a reconciliation pass over the pool: every donor is
/// merged in pool order. A malformed snapshot is handed back untouched, its
/// reconciliation abandoned.
pub open spec fn reconciled_tree(t: DeviceView, pool: Seq<DeviceView>) -> DeviceView {
    if t.is_virtual() {
        t
    } else {
        merge_all(t, pool, pool.len() as int)
    }
}

/// One reconciliation pass over a fleet-wide batch of snapshots: gathers the
/// donor pool from every host, then merges every donor into every host's
/// tree, and hands back the batch in its original host order.
pub fn update_virtual_devices(devices: Vec<(Fqdn, Device)>) -> (r: Vec<(Fqdn, Device)>)
    ensures
        r@.len() == devices@.len(),
        forall|i: int| 0 <= i < devices@.len() ==> #[trigger] r@[i].0@ == devices@[i].0@,
        forall|i: int|
            0 <= i < devices@.len() ==> #[trigger] r@[i].1@ == reconciled_tree(
                devices@[i].1@,
                batch_pool(devices@),
            ),
{
    let mut parents: Vec<Device> = Vec::new();
    let mut i: usize = 0;
    proof {
        assert(views(parents@) =~= donor_pool(batch_views(devices@), 0));
    }
    while i < devices.len()
        invariant
            0 <= i <= devices@.len(),
            views(parents@) == donor_pool(batch_views(devices@), i as int),
        decreases devices@.len() - i,
    {
        let ghost pre = parents@;
        match collect_virtual_device_parents(&devices[i].1) {
            Ok(mut ps) => {
                let ghost psv = ps@;
                parents.append(&mut ps);
                proof {
                    assert(views(parents@) =~= views(pre) + views(psv));
                    assert(batch_views(devices@)[i as int].1 == devices@[i as int].1@);
                    assert(views(parents@) =~= donor_pool(batch_views(devices@), i + 1));
                }
            },
            Err(_) => {
                proof {
                    assert(batch_views(devices@)[i as int].1 == devices@[i as int].1@);
                    assert(views(parents@) =~= donor_pool(batch_views(devices@), i + 1));
                }
            },
        }
        i = i + 1;
    }
    let mut results: Vec<(Fqdn, Device)> = Vec::new();
    let mut j: usize = 0;
    while j < devices.len()
        invariant
            0 <= j <= devices@.len(),
            views(parents@) == batch_pool(devices@),
            results@.len() == j,
            forall|k: int| 0 <= k < j ==> #[trigger] results@[k].0@ == devices@[k].0@,
            forall|k: int|
                0 <= k < j ==> #[trigger] results@[k].1@ == reconciled_tree(
                    devices@[k].1@,
                    batch_pool(devices@),
                ),
        decreases devices@.len() - j,
    {
        let f = Fqdn(devices[j].0.0.clone());
        let d = &devices[j].1;
        if is_virtual(d) {
            results.push((f, d.duplicate()));
        } else {
            let mut t = d.duplicate();
            insert_virtual_devices(&mut t, &parents);
            results.push((f, t));
        }
        j = j + 1;
    }
    results
}

} // verus!
