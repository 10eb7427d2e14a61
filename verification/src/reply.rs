//! What a request is answered with, and what the native layer is asked to
//! do on its behalf.

use crate::attr::{FileAttr, Timestamp};
use vstd::prelude::*;

verus! {

/// Generation number of every entry: inode generations are not tracked.
pub const GENERATION: u64 = 0;

/// Handle under which every directory is opened: no state is kept for an
/// open directory.
pub const DIRECTORY_HANDLE: u64 = 0;

/// Block size reported by the filesystem statistics.
pub const STATFS_BLOCK_SIZE: u32 = 512;

/// Longest file name reported by the filesystem statistics.
pub const STATFS_NAME_LENGTH: u32 = 255;

/// The answer to a lookup.
#[derive(Clone, Copy, Debug, PartialEq, Eq, Structural)]
pub struct EntryReply {
    /// How long the entry and its attributes may be cached.
    pub ttl: Timestamp,
    /// The attributes of the file found.
    pub attr: FileAttr,
    /// Generation of the inode.
    pub generation: u64,
}

/// The answer to a request for attributes.
#[derive(Clone, Copy, Debug, PartialEq, Eq, Structural)]
pub struct AttrReply {
    /// How long the attributes may be cached.
    pub ttl: Timestamp,
    /// The attributes.
    pub attr: FileAttr,
}

/// The answer to an open.
#[derive(Clone, Copy, Debug, PartialEq, Eq, Structural)]
pub struct OpenReply {
    /// The handle by which the open file is named from now on.
    pub fh: u64,
    /// Flags of the open file, as sent back to the kernel.
    pub flags: u32,
}

/// The answer to a request for filesystem statistics.
#[derive(Clone, Copy, Debug, PartialEq, Eq, Structural)]
pub struct StatfsReply {
    /// Total data blocks.
    pub blocks: u64,
    /// Free blocks.
    pub bfree: u64,
    /// Free blocks available to unprivileged users.
    pub bavail: u64,
    /// Total inodes.
    pub files: u64,
    /// Free inodes.
    pub ffree: u64,
    /// Block size.
    pub bsize: u32,
    /// Longest file name.
    pub namelen: u32,
    /// Fragment size.
    pub frsize: u32,
}

/// The native open that an open request asks for.
#[derive(Clone, Debug, PartialEq, Eq)]
pub struct OpenRequest {
    /// Path of the file to open.
    pub path: Vec<u8>,
    /// Flags to open it with.
    pub flags: i32,
    /// Access mode to open it with.
    pub mode: u32,
}

/// An `OpenRequest` with its path as a sequence.
pub struct OpenRequestView {
    /// Path of the file to open.
    pub path: Seq<u8>,
    /// Flags to open it with.
    pub flags: i32,
    /// Access mode to open it with.
    pub mode: u32,
}

impl View for OpenRequest {
    type V = OpenRequestView;

    open spec fn view(&self) -> OpenRequestView {
        OpenRequestView { path: self.path@, flags: self.flags, mode: self.mode }
    }
}

/// The native read that a read request asks for: position the descriptor at
/// the offset, then read into the buffer.
#[derive(Clone, Debug, PartialEq, Eq)]
pub struct ReadRequest {
    /// Descriptor to read from.
    pub fd: i32,
    /// Absolute offset to read at.
    pub offset: i64,
    /// Zeroed buffer of the size asked for.
    pub buffer: Vec<u8>,
}

/// A `ReadRequest` with its buffer as a sequence.
pub struct ReadRequestView {
    /// Descriptor to read from.
    pub fd: i32,
    /// Absolute offset to read at.
    pub offset: i64,
    /// Zeroed buffer of the size asked for.
    pub buffer: Seq<u8>,
}

impl View for ReadRequest {
    type V = ReadRequestView;

    open spec fn view(&self) -> ReadRequestView {
        ReadRequestView { fd: self.fd, offset: self.offset, buffer: self.buffer@ }
    }
}

/// A result with the view of what it holds on success.
pub open spec fn view_result<T: View, E>(r: Result<T, E>) -> Result<T::V, E> {
    match r {
        Ok(value) => Ok(value@),
        Err(e) => Err(e),
    }
}

} // verus!
