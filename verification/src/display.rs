//! A one-line description of a device node, for reports and logs: the
//! variant, its identity attribute, and how many children it carries.

use vstd::prelude::*;

use crate::device::{Device, DeviceView, view_option_string};
use vstd::string::StringExecFns;

verus! {

/// The decimal digit `d` as a character.
pub open spec fn dec_digit(d: nat) -> char {
    if d == 0 {
        '0'
    } else if d == 1 {
        '1'
    } else if d == 2 {
        '2'
    } else if d == 3 {
        '3'
    } else if d == 4 {
        '4'
    } else if d == 5 {
        '5'
    } else if d == 6 {
        '6'
    } else if d == 7 {
        '7'
    } else if d == 8 {
        '8'
    } else {
        '9'
    }
}

/// The decimal writing of `n`, most significant digit first, no sign and no
/// leading zero (a single zero for 0).
pub open spec fn dec_str(n: nat) -> Seq<char>
    decreases n,
{
    if n < 10 {
        seq![dec_digit(n)]
    } else {
        dec_str(n / 10).push(dec_digit(n % 10))
    }
}

/// An optional serial number as shown in a description.
pub open spec fn serial_str(s: Option<Seq<char>>) -> Seq<char> {
    match s {
        Option::None => "None"@,
        Option::Some(s) => s,
    }
}

/// The description of a device node: variant, identity attribute, child
/// count.
pub open spec fn display_of(v: DeviceView) -> Seq<char> {
    match v {
        DeviceView::Root { children } => "Root: children: "@ + dec_str(children.len()),
        DeviceView::ScsiDevice { serial, children } => "ScsiDevice: serial: "@ + serial_str(serial)
            + ", children: "@ + dec_str(children.len()),
        DeviceView::Partition { serial, children } => "Partition: serial: "@ + serial_str(serial)
            + ", children: "@ + dec_str(children.len()),
        DeviceView::Mpath { serial, children } => "Mpath: serial: "@ + serial_str(serial)
            + ", children: "@ + dec_str(children.len()),
        DeviceView::MdRaid { uuid, children } => "MdRaid: uuid: "@ + uuid + ", children: "@
            + dec_str(children.len()),
        DeviceView::VolumeGroup { name, children } => "VolumeGroup: name: "@ + name
            + ", children: "@ + dec_str(children.len()),
        DeviceView::LogicalVolume { uuid, children } => "LogicalVolume: uuid: "@ + uuid
            + ", children: "@ + dec_str(children.len()),
        DeviceView::Zpool { guid, children } => "Zpool: guid: "@ + guid + ", children: "@
            + dec_str(children.len()),
        DeviceView::Dataset { guid } => "Dataset: guid: "@ + guid + ", children: 0"@,
    }
}

fn digit_str(d: usize) -> (r: &'static str)
    requires
        d < 10,
    ensures
        r@ == seq![dec_digit(d as nat)],
{
    proof {
        reveal_strlit("0");
        reveal_strlit("1");
        reveal_strlit("2");
        reveal_strlit("3");
        reveal_strlit("4");
        reveal_strlit("5");
        reveal_strlit("6");
        reveal_strlit("7");
        reveal_strlit("8");
        reveal_strlit("9");
    }
    match d {
        0 => "0",
        1 => "1",
        2 => "2",
        3 => "3",
        4 => "4",
        5 => "5",
        6 => "6",
        7 => "7",
        8 => "8",
        _ => "9",
    }
}

fn push_dec(n: usize, out: &mut String)
    ensures
        final(out)@ == old(out)@ + dec_str(n as nat),
    decreases n,
{
    if n < 10 {
        out.append(digit_str(n));
    } else {
        push_dec(n / 10, out);
        out.append(digit_str(n % 10));
        proof {
            assert(out@ =~= old(out)@ + dec_str(n as nat));
        }
    }
}

fn push_serial(s: &Option<String>, out: &mut String)
    ensures
        final(out)@ == old(out)@ + serial_str(view_option_string(*s)),
{
    match s {
        Option::None => out.append("None"),
        Option::Some(s) => out.append(s.as_str()),
    }
}

/// The description of a device, for reports and logs: its variant, its
/// identity attribute, and how many children it carries.
pub fn to_display(d: &Device) -> (r: String)
    ensures
        r@ == display_of(d@),
{
    let mut out = String::new();
    match d {
        Device::Root { children } => {
            out.append("Root: children: ");
            proof {
                crate::device::lemma_view_children(children@, children@.len() as int);
            }
            push_dec(children.len(), &mut out);
        },
        Device::ScsiDevice { serial, children } => {
            out.append("ScsiDevice: serial: ");
            push_serial(serial, &mut out);
            out.append(", children: ");
            proof {
                crate::device::lemma_view_children(children@, children@.len() as int);
            }
            push_dec(children.len(), &mut out);
        },
        Device::Partition { serial, children } => {
            out.append("Partition: serial: ");
            push_serial(serial, &mut out);
            out.append(", children: ");
            proof {
                crate::device::lemma_view_children(children@, children@.len() as int);
            }
            push_dec(children.len(), &mut out);
        },
        Device::Mpath { serial, children } => {
            out.append("Mpath: serial: ");
            push_serial(serial, &mut out);
            out.append(", children: ");
            proof {
                crate::device::lemma_view_children(children@, children@.len() as int);
            }
            push_dec(children.len(), &mut out);
        },
        Device::MdRaid { uuid, children } => {
            out.append("MdRaid: uuid: ");
            out.append(uuid.as_str());
            out.append(", children: ");
            proof {
                crate::device::lemma_view_children(children@, children@.len() as int);
            }
            push_dec(children.len(), &mut out);
        },
        Device::VolumeGroup { name, children } => {
            out.append("VolumeGroup: name: ");
            out.append(name.as_str());
            out.append(", children: ");
            proof {
                crate::device::lemma_view_children(children@, children@.len() as int);
            }
            push_dec(children.len(), &mut out);
        },
        Device::LogicalVolume { uuid, children } => {
            out.append("LogicalVolume: uuid: ");
            out.append(uuid.as_str());
            out.append(", children: ");
            proof {
                crate::device::lemma_view_children(children@, children@.len() as int);
            }
            push_dec(children.len(), &mut out);
        },
        Device::Zpool { guid, children } => {
            out.append("Zpool: guid: ");
            out.append(guid.as_str());
            out.append(", children: ");
            proof {
                crate::device::lemma_view_children(children@, children@.len() as int);
            }
            push_dec(children.len(), &mut out);
        },
        Device::Dataset { guid } => {
            out.append("Dataset: guid: ");
            out.append(guid.as_str());
            out.append(", children: 0");
        },
    }
    proof {
        assert(out@ =~= display_of(d@));
    }
    out
}

} // verus!
