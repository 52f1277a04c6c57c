use iml_device::device::Device;
use iml_device::display::to_display;

fn kids(n: usize) -> Vec<Device> {
    (0..n).map(|i| Device::Partition { serial: Some(format!("part{}", i)), children: vec![] }).collect()
}

#[test]
fn display_of_every_variant() {
    assert_eq!(to_display(&Device::Root { children: kids(2) }), "Root: children: 2");
    assert_eq!(
        to_display(&Device::ScsiDevice { serial: Some("S1".to_string()), children: vec![] }),
        "ScsiDevice: serial: S1, children: 0"
    );
    assert_eq!(
        to_display(&Device::ScsiDevice { serial: None, children: kids(1) }),
        "ScsiDevice: serial: None, children: 1"
    );
    assert_eq!(
        to_display(&Device::Partition { serial: Some("PA1".to_string()), children: vec![] }),
        "Partition: serial: PA1, children: 0"
    );
    assert_eq!(
        to_display(&Device::Mpath { serial: None, children: vec![] }),
        "Mpath: serial: None, children: 0"
    );
    assert_eq!(
        to_display(&Device::MdRaid { uuid: "U1".to_string(), children: kids(3) }),
        "MdRaid: uuid: U1, children: 3"
    );
    assert_eq!(
        to_display(&Device::VolumeGroup { name: "vg0".to_string(), children: vec![] }),
        "VolumeGroup: name: vg0, children: 0"
    );
    assert_eq!(
        to_display(&Device::LogicalVolume { uuid: "L1".to_string(), children: vec![] }),
        "LogicalVolume: uuid: L1, children: 0"
    );
    assert_eq!(
        to_display(&Device::Zpool { guid: "Z1".to_string(), children: vec![] }),
        "Zpool: guid: Z1, children: 0"
    );
    assert_eq!(
        to_display(&Device::Dataset { guid: "D1".to_string() }),
        "Dataset: guid: D1, children: 0"
    );
}

#[test]
fn display_counts_many_children_in_decimal() {
    assert_eq!(to_display(&Device::Root { children: kids(12) }), "Root: children: 12");
    assert_eq!(to_display(&Device::Root { children: kids(105) }), "Root: children: 105");
}
