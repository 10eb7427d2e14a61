//! What the native layer reports, as plain values.
//!
//! The caller makes the system calls and writes their outcomes down in these
//! types; nothing here touches the operating system.

use vstd::prelude::*;

verus! {

/// Mask of the bits of a file mode that hold the file's type.
pub const S_IFMT: u32 = 0o170000;

/// File type bits of a socket.
pub const S_IFSOCK: u32 = 0o140000;

/// File type bits of a symbolic link.
pub const S_IFLNK: u32 = 0o120000;

/// File type bits of a regular file.
pub const S_IFREG: u32 = 0o100000;

/// File type bits of a block device.
pub const S_IFBLK: u32 = 0o060000;

/// File type bits of a directory.
pub const S_IFDIR: u32 = 0o040000;

/// File type bits of a character device.
pub const S_IFCHR: u32 = 0o020000;

/// File type bits of a named pipe.
pub const S_IFIFO: u32 = 0o010000;

/// The metadata of one file as the native `stat` call fills it in.
#[derive(Clone, Copy, Debug, PartialEq, Eq)]
pub struct NativeStat {
    /// Inode number.
    pub st_ino: u64,
    /// Number of hard links.
    pub st_nlink: u64,
    /// File type and permission bits.
    pub st_mode: u32,
    /// Owner.
    pub st_uid: u32,
    /// Group.
    pub st_gid: u32,
    /// Device number, for a device file.
    pub st_rdev: u64,
    /// Size in bytes.
    pub st_size: i64,
    /// Number of 512-byte blocks allocated.
    pub st_blocks: i64,
    /// Last access, seconds.
    pub st_atime: i64,
    /// Last access, nanoseconds within the second.
    pub st_atime_nsec: i64,
    /// Last modification, seconds.
    pub st_mtime: i64,
    /// Last modification, nanoseconds within the second.
    pub st_mtime_nsec: i64,
    /// Last status change, seconds.
    pub st_ctime: i64,
    /// Last status change, nanoseconds within the second.
    pub st_ctime_nsec: i64,
}

/// A failure of the native layer, as the caller of the system reports it.
#[derive(Clone, Copy, Debug, PartialEq, Eq, Structural)]
pub enum NativeError {
    /// The operating system failed the call with this error number.
    Sys { errno: i32 },
    /// The path could not be handed to the operating system.
    InvalidPath,
    /// A name was not valid UTF-8 where that was required.
    InvalidUtf8,
    /// The native layer does not offer the operation.
    UnsupportedOperation,
}

impl NativeError {
    /// The error number that the failure carries, if it carries one.
    pub open spec fn spec_as_errno(self) -> Option<i32> {
        match self {
            NativeError::Sys { errno } => Some(errno),
            _ => None,
        }
    }

    /// The error number that the failure carries, if it carries one.
    #[verifier::when_used_as_spec(spec_as_errno)]
    pub fn as_errno(self) -> (code: Option<i32>)
        ensures
            code == self.spec_as_errno(),
    {
        match self {
            NativeError::Sys { errno } => Some(errno),
            _ => None,
        }
    }
}

} // verus!
