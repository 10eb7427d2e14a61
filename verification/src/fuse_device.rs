//! The device node through which the kernel and the filesystem speak, and
//! what has to be done about it before a mount.

use crate::attr::{file_type_of, FileType};
use crate::native::{NativeError, NativeStat, S_IFCHR, S_IFMT};
use vstd::prelude::*;

verus! {

/// Permission bits that the device node is created with.
pub const FUSE_DEVICE_MODE: u32 = 0o666;

/// A device node to create at the device path.
#[derive(Clone, Copy, Debug, PartialEq, Eq, Structural)]
pub struct DeviceNode {
    /// Type of the node.
    pub kind: FileType,
    /// Permission bits of the node.
    pub perm: u32,
    /// Device number of the node.
    pub dev: u64,
}

/// What to do about the device node before mounting.
#[derive(Clone, Copy, Debug, PartialEq, Eq, Structural)]
pub enum Bootstrap {
    /// The node is there and is the right one: nothing to do.
    Keep,
    /// Create this node.
    Create(DeviceNode),
}

/// The device path, `/dev/fuse`, byte by byte.
pub open spec fn device_path() -> Seq<u8> {
    seq![0x2fu8, 0x64u8, 0x65u8, 0x76u8, 0x2fu8, 0x66u8, 0x75u8, 0x73u8, 0x65u8]
}

/// The node that stands at the device path for the device number `dev`: a
/// character device with read and write permission for everyone.
pub open spec fn fuse_node(dev: u64) -> DeviceNode {
    DeviceNode { kind: FileType::CharDevice, perm: FUSE_DEVICE_MODE, dev }
}

/// Whether what the native `stat` of the device path reported shows the
/// node for `dev` in place: a character device with that device number.
pub open spec fn node_in_place(existing: Result<NativeStat, NativeError>, dev: u64) -> bool {
    existing matches Ok(stat) && stat.st_mode & S_IFMT == S_IFCHR && stat.st_rdev == dev
}

/// The device path.
pub fn fuse_device_path() -> (path: Vec<u8>)
    ensures
        path@ == device_path(),
{
    let path: Vec<u8> = vec![
        0x2fu8, 0x64u8, 0x65u8, 0x76u8, 0x2fu8, 0x66u8, 0x75u8, 0x73u8, 0x65u8,
    ];
    assert(path@ =~= device_path());
    path
}

/// The device number of the device, given what the native `stat` of the
/// device path on a machine that has the device reported: the device number
/// in the metadata, or the failure as it came.
pub fn read_fuse_dev_t(native: Result<NativeStat, NativeError>) -> (dev: Result<u64, NativeError>)
    ensures
        dev == match native {
            Ok(stat) => Ok::<u64, NativeError>(stat.st_rdev),
            Err(err) => Err::<u64, NativeError>(err),
        },
{
    match native {
        Ok(stat) => Ok(stat.st_rdev),
        Err(err) => Err(err),
    }
}

/// What to do about the device node for `dev`, given what the native `stat`
/// of the device path reported: nothing where the node is in place, so that
/// a second bootstrap does not fail on the first one's node, and else the
/// creation of the node.
pub fn mkfuse_node(dev: u64, existing: Result<NativeStat, NativeError>) -> (action: Bootstrap)
    ensures
        action == if node_in_place(existing, dev) {
            Bootstrap::Keep
        } else {
            Bootstrap::Create(fuse_node(dev))
        },
{
    match existing {
        Ok(stat) => {
            if stat.st_mode & S_IFMT == S_IFCHR && stat.st_rdev == dev {
                return Bootstrap::Keep;
            }
        },
        Err(_) => {},
    }
    Bootstrap::Create(DeviceNode { kind: FileType::CharDevice, perm: FUSE_DEVICE_MODE, dev })
}

/// Once the node that a bootstrap asked for has been created, a second
/// bootstrap for the same device number asks for nothing.
pub proof fn lemma_bootstrap_settles(dev: u64, created: NativeStat)
    requires
        file_type_of(created.st_mode) == Some(fuse_node(dev).kind),
        created.st_rdev == fuse_node(dev).dev,
    ensures
        node_in_place(Ok(created), dev),
{
}

} // verus!
