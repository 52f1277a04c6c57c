//! Fleet-wide reconciliation of per-host block-device trees.
//!
//! Every host of a storage cluster scans its own block devices and reports
//! them as a tree rooted at [`device::Device::Root`]. A device shared by
//! several hosts (a SAS or iSCSI LUN, say) is scanned by each of them, but
//! only the host that has currently assembled an OS-level virtual device
//! (software RAID, LVM, ZFS) on top of it reports that virtual layer; the
//! peers see a bare leaf. The reconciler collects, from every host, the
//! parent node of each virtual device it reports, and grafts those parents
//! onto every other host's tree wherever a node with the same identity is
//! found, so that all hosts end up agreeing on which physical devices carry
//! which virtual ones.

pub mod collect;
pub mod device;
pub mod display;
pub mod laws;
pub mod merge;
pub mod reconcile;

pub use device::Device;
