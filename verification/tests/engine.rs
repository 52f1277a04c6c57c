use iml_device::collect::{collect_virtual_device_parents, VirtualRootError};
use iml_device::device::{compare_without_children, is_virtual, Device};
use iml_device::merge::{insert, insert_virtual_devices};
use iml_device::reconcile::{update_virtual_devices, Fqdn};

fn root(children: Vec<Device>) -> Device {
    Device::Root { children }
}

fn scsi(serial: &str, children: Vec<Device>) -> Device {
    Device::ScsiDevice { serial: Some(serial.to_string()), children }
}

fn mpath(serial: &str, children: Vec<Device>) -> Device {
    Device::Mpath { serial: Some(serial.to_string()), children }
}

fn partition(serial: &str, children: Vec<Device>) -> Device {
    Device::Partition { serial: Some(serial.to_string()), children }
}

fn mdraid(uuid: &str, children: Vec<Device>) -> Device {
    Device::MdRaid { uuid: uuid.to_string(), children }
}

fn vg(name: &str, children: Vec<Device>) -> Device {
    Device::VolumeGroup { name: name.to_string(), children }
}

fn lv(uuid: &str, children: Vec<Device>) -> Device {
    Device::LogicalVolume { uuid: uuid.to_string(), children }
}

fn zpool(guid: &str, children: Vec<Device>) -> Device {
    Device::Zpool { guid: guid.to_string(), children }
}

fn dataset(guid: &str) -> Device {
    Device::Dataset { guid: guid.to_string() }
}

fn host(name: &str, tree: Device) -> (Fqdn, Device) {
    (Fqdn(name.to_string()), tree)
}

#[test]
fn classifier_is_total_and_fixed() {
    assert!(!is_virtual(&root(vec![])));
    assert!(!is_virtual(&scsi("S1", vec![])));
    assert!(!is_virtual(&partition("S1", vec![])));
    assert!(!is_virtual(&mpath("S1", vec![])));
    assert!(is_virtual(&mdraid("U1", vec![])));
    assert!(is_virtual(&vg("VG1", vec![])));
    assert!(is_virtual(&lv("LV1", vec![])));
    assert!(is_virtual(&zpool("Z1", vec![])));
    assert!(is_virtual(&dataset("D1")));
}

#[test]
fn identity_ignores_children() {
    let bare = scsi("S1", vec![]);
    let rich = scsi("S1", vec![mdraid("U1", vec![]), partition("S2", vec![])]);
    assert!(compare_without_children(&bare, &rich));
    assert!(compare_without_children(&rich, &bare));

    assert!(!compare_without_children(&scsi("S1", vec![]), &scsi("S2", vec![])));
    assert!(!compare_without_children(&scsi("S1", vec![]), &mpath("S1", vec![])));
    let unnamed = Device::ScsiDevice { serial: None, children: vec![] };
    assert!(!compare_without_children(&scsi("S1", vec![]), &unnamed));
    assert!(compare_without_children(&unnamed, &Device::ScsiDevice {
        serial: None,
        children: vec![dataset("D1")],
    }));
}

#[test]
fn without_children_keeps_identity_only() {
    let rich = scsi("S1", vec![mdraid("U1", vec![])]);
    assert_eq!(rich.without_children(), scsi("S1", vec![]));
    assert_eq!(dataset("D1").without_children(), dataset("D1"));
}

#[test]
fn duplicate_is_deep_equal() {
    let t = root(vec![scsi("S1", vec![mdraid("U1", vec![dataset("D1")])])]);
    assert_eq!(t.duplicate(), t);
}

#[test]
fn merge_absent_donor_is_a_no_op() {
    // Scenario C: the donor's identity matches nothing in the target tree.
    let original = root(vec![scsi("S1", vec![partition("PA1", vec![])])]);
    let mut tree = original.duplicate();
    let donor = scsi("S9", vec![mdraid("U1", vec![])]);
    insert(&mut tree, &donor);
    assert_eq!(tree, original);
}

#[test]
fn merge_replaces_the_matching_node_wholesale() {
    // The bare node matches the donor; its old children are discarded in
    // favour of the donor's.
    let mut tree = root(vec![scsi("S1", vec![partition("OLD", vec![])]), scsi("S2", vec![])]);
    let donor = scsi("S1", vec![mdraid("U1", vec![])]);
    insert(&mut tree, &donor);
    assert_eq!(
        tree,
        root(vec![scsi("S1", vec![mdraid("U1", vec![])]), scsi("S2", vec![])])
    );
}

#[test]
fn merge_replaces_only_the_first_match() {
    // Two siblings with the same identity: only the first, in child order,
    // receives the donor.
    let mut tree = root(vec![scsi("S1", vec![]), scsi("S1", vec![])]);
    let donor = scsi("S1", vec![zpool("Z1", vec![])]);
    insert(&mut tree, &donor);
    assert_eq!(
        tree,
        root(vec![scsi("S1", vec![zpool("Z1", vec![])]), scsi("S1", vec![])])
    );
}

#[test]
fn merge_twice_equals_merge_once() {
    let base = root(vec![mpath("M1", vec![]), scsi("S1", vec![])]);
    let donor = mpath("M1", vec![vg("VG1", vec![lv("LV1", vec![])])]);
    let mut once = base.duplicate();
    insert(&mut once, &donor);
    let mut twice = base.duplicate();
    insert(&mut twice, &donor);
    insert(&mut twice, &donor);
    assert_eq!(twice, once);
}

#[test]
fn collector_emits_the_parent_of_every_virtual_device() {
    // Scenario B, collection half: the parent is emitted with its full child
    // set, virtual child included.
    let tree = root(vec![scsi("S1", vec![mdraid("U1", vec![])])]);
    let parents = collect_virtual_device_parents(&tree).unwrap();
    assert_eq!(parents, vec![scsi("S1", vec![mdraid("U1", vec![])])]);
}

#[test]
fn collector_does_not_look_through_virtual_devices() {
    // A dataset inside a zpool is never examined: one emission per branch.
    let tree = root(vec![scsi("S1", vec![zpool("Z1", vec![dataset("D1")])])]);
    let parents = collect_virtual_device_parents(&tree).unwrap();
    assert_eq!(parents, vec![scsi("S1", vec![zpool("Z1", vec![dataset("D1")])])]);

    let quiet = root(vec![scsi("S1", vec![partition("PA1", vec![])])]);
    assert_eq!(collect_virtual_device_parents(&quiet).unwrap(), vec![]);
}

#[test]
fn collector_emits_once_per_virtual_device() {
    // Two virtual children under one parent: the parent is emitted twice,
    // duplicates retained.
    let parent = scsi("S1", vec![mdraid("U1", vec![]), mdraid("U2", vec![])]);
    let tree = root(vec![parent.duplicate()]);
    let parents = collect_virtual_device_parents(&tree).unwrap();
    assert_eq!(parents, vec![parent.duplicate(), parent]);
}

#[test]
fn collector_rejects_a_virtual_root() {
    let malformed = mdraid("U1", vec![]);
    assert_eq!(collect_virtual_device_parents(&malformed), Err(VirtualRootError));
}

#[test]
fn collect_then_merge_round_trip() {
    // The collector/merger round trip: host 1 knows the MdRaid atop the
    // shared LUN, host 2 sees the bare LUN; after collect-then-merge host 2
    // knows it too.
    let host1_tree = root(vec![scsi("S1", vec![mdraid("U1", vec![])])]);
    let mut host2_tree = root(vec![scsi("S1", vec![])]);
    let parents = collect_virtual_device_parents(&host1_tree).unwrap();
    insert_virtual_devices(&mut host2_tree, &parents);
    assert_eq!(host2_tree, host1_tree);
}

#[test]
fn reconcile_without_virtual_devices_changes_nothing() {
    // Scenario A: the donor pool is empty, outputs equal inputs.
    let batch = vec![
        host("host1", root(vec![scsi("S1", vec![])])),
        host("host2", root(vec![scsi("S1", vec![partition("PA1", vec![])])])),
    ];
    let expected = vec![
        host("host1", root(vec![scsi("S1", vec![])])),
        host("host2", root(vec![scsi("S1", vec![partition("PA1", vec![])])])),
    ];
    assert_eq!(update_virtual_devices(batch), expected);
}

#[test]
fn reconcile_propagates_a_virtual_device_to_its_peer() {
    // Scenario B, whole pass: host 2's bare node is replaced by host 1's
    // donor, so the two trees come out identical.
    let batch = vec![
        host("host1", root(vec![scsi("S1", vec![mdraid("U1", vec![])])])),
        host("host2", root(vec![scsi("S1", vec![])])),
    ];
    let expected_tree = root(vec![scsi("S1", vec![mdraid("U1", vec![])])]);
    let out = update_virtual_devices(batch);
    assert_eq!(
        out,
        vec![
            host("host1", expected_tree.duplicate()),
            host("host2", expected_tree),
        ]
    );
}

#[test]
fn reconcile_keeps_unrelated_hosts_apart() {
    // Scenario D: two hosts carry different virtual devices atop parents
    // that do not structurally match each other (different variants); each
    // keeps only its own. A third host whose view matches one of the two
    // parents receives that one alone.
    let batch = vec![
        host("host1", root(vec![scsi("S1", vec![mdraid("U1", vec![])])])),
        host("host2", root(vec![mpath("S1", vec![vg("VG1", vec![])])])),
        host("host3", root(vec![scsi("S1", vec![])])),
    ];
    let out = update_virtual_devices(batch);
    assert_eq!(
        out,
        vec![
            host("host1", root(vec![scsi("S1", vec![mdraid("U1", vec![])])])),
            host("host2", root(vec![mpath("S1", vec![vg("VG1", vec![])])])),
            host("host3", root(vec![scsi("S1", vec![mdraid("U1", vec![])])])),
        ]
    );
}

#[test]
fn reconcile_leaves_a_malformed_snapshot_alone() {
    // A virtual device at the root is an invariant violation: that
    // snapshot's reconciliation is abandoned, the others proceed.
    let batch = vec![
        host("bad", zpool("Z1", vec![])),
        host("host1", root(vec![scsi("S1", vec![mdraid("U1", vec![])])])),
        host("host2", root(vec![scsi("S1", vec![])])),
    ];
    let out = update_virtual_devices(batch);
    assert_eq!(
        out,
        vec![
            host("bad", zpool("Z1", vec![])),
            host("host1", root(vec![scsi("S1", vec![mdraid("U1", vec![])])])),
            host("host2", root(vec![scsi("S1", vec![mdraid("U1", vec![])])])),
        ]
    );
}

#[test]
fn reconcile_of_an_empty_batch_is_empty() {
    assert_eq!(update_virtual_devices(vec![]), vec![]);
}
