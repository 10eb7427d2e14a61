//! The filesystem as a mathematical value, and every operation as a function
//! on it.
//!
//! An operation that needs the native layer is told in two steps: what it
//! asks of the native layer, and, for each outcome that the native layer may
//! report, the reply and the tables afterwards.

use crate::attr::{attr_of, FileAttr, Timestamp};
use crate::errors::{translated, FsError};
use crate::flags::OPEN_MODE;
use crate::native::{NativeError, NativeStat};
use crate::paths::joined;
use crate::reply::{
    AttrReply, EntryReply, OpenReply, OpenRequestView, ReadRequestView, StatfsReply,
    DIRECTORY_HANDLE, GENERATION, STATFS_BLOCK_SIZE, STATFS_NAME_LENGTH,
};
use vstd::prelude::*;

verus! {

/// The state of a mounted filesystem.
pub struct HookFsView {
    /// Where the filesystem is mounted.
    pub mount_path: Seq<u8>,
    /// Root of the directory tree that requests are answered from.
    pub original_path: Seq<u8>,
    /// The inode table: the native path of every inode handed out.
    pub inode_map: Map<u64, Seq<u8>>,
    /// The open file table: the native descriptor behind every handle, the
    /// handle being the position.
    pub opened_files: Seq<i32>,
}

/// The reply that native metadata is turned into: the attribute record, or
/// the translated failure.
pub open spec fn attr_or_error(native: Result<NativeStat, NativeError>) -> Result<
    FileAttr,
    FsError,
> {
    match native {
        Ok(stat) => match attr_of(stat) {
            Some(attr) => Ok(attr),
            None => Err(FsError::UnsupportedFileType),
        },
        Err(err) => Err(translated(err)),
    }
}

impl HookFsView {
    /// What holds of the state of every filesystem in memory: the open file
    /// table is short enough for a handle to name each of its positions.
    pub open spec fn wf(self) -> bool {
        self.opened_files.len() <= usize::MAX
    }

    /// A filesystem just mounted: both tables are empty.
    pub open spec fn fresh(mount_path: Seq<u8>, original_path: Seq<u8>) -> HookFsView {
        HookFsView {
            mount_path,
            original_path,
            inode_map: Map::empty(),
            opened_files: Seq::empty(),
        }
    }

    /// The native path that a lookup of `name` examines: the name joined to
    /// the original root, whatever the parent.
    pub open spec fn lookup_path(self, name: Seq<u8>) -> Seq<u8> {
        joined(self.original_path, name)
    }

    /// The reply to a lookup, given what the native `stat` of the looked-up
    /// path reported and the clock reading taken for the reply.
    pub open spec fn lookup_reply(
        self,
        native: Result<NativeStat, NativeError>,
        now: Timestamp,
    ) -> Result<EntryReply, FsError> {
        match attr_or_error(native) {
            Ok(attr) => Ok(EntryReply { ttl: now, attr, generation: GENERATION }),
            Err(e) => Err(e),
        }
    }

    /// The state after a lookup: a successful one enters the inode with the
    /// path looked up, a failed one changes nothing.
    pub open spec fn after_lookup(
        self,
        name: Seq<u8>,
        native: Result<NativeStat, NativeError>,
    ) -> HookFsView {
        match attr_or_error(native) {
            Ok(attr) => HookFsView {
                inode_map: self.inode_map.insert(attr.ino, self.lookup_path(name)),
                ..self
            },
            Err(_) => self,
        }
    }

    /// The native path whose metadata a request for attributes needs.
    pub open spec fn getattr_path(self, ino: u64) -> Result<Seq<u8>, FsError> {
        if self.inode_map.contains_key(ino) {
            Ok(self.inode_map[ino])
        } else {
            Err(FsError::UnknownInode)
        }
    }

    /// The reply to a request for attributes, given what the native `stat`
    /// reported and the clock reading taken for the reply.
    pub open spec fn getattr_reply(
        self,
        ino: u64,
        native: Result<NativeStat, NativeError>,
        now: Timestamp,
    ) -> Result<AttrReply, FsError> {
        if !self.inode_map.contains_key(ino) {
            Err(FsError::UnknownInode)
        } else {
            match attr_or_error(native) {
                Ok(attr) => Ok(AttrReply { ttl: now, attr }),
                Err(e) => Err(e),
            }
        }
    }

    /// The native open that an open of `ino` asks for, given the native form
    /// of its flags. Flags without a native form are refused first, then an
    /// inode that is not in the table.
    pub open spec fn open_request(self, ino: u64, native_flags: Option<i32>) -> Result<
        OpenRequestView,
        FsError,
    > {
        match native_flags {
            None => Err(FsError::InvalidFlags),
            Some(bits) => if self.inode_map.contains_key(ino) {
                Ok(OpenRequestView { path: self.inode_map[ino], flags: bits, mode: OPEN_MODE })
            } else {
                Err(FsError::UnknownInode)
            },
        }
    }

    /// The reply to an open, given what the native open reported. The handle
    /// is the position that the new descriptor takes in the table; the flags
    /// go back as they came.
    pub open spec fn open_reply(
        self,
        ino: u64,
        flags: u32,
        native_flags: Option<i32>,
        native: Result<i32, NativeError>,
    ) -> Result<OpenReply, FsError> {
        match self.open_request(ino, native_flags) {
            Err(e) => Err(e),
            Ok(_) => match native {
                Ok(fd) => Ok(OpenReply { fh: self.opened_files.len() as u64, flags }),
                Err(err) => Err(translated(err)),
            },
        }
    }

    /// The state after an open: a successful one appends the descriptor, a
    /// failed one changes nothing.
    pub open spec fn after_open(
        self,
        ino: u64,
        native_flags: Option<i32>,
        native: Result<i32, NativeError>,
    ) -> HookFsView {
        match (self.open_request(ino, native_flags), native) {
            (Ok(_), Ok(fd)) => HookFsView { opened_files: self.opened_files.push(fd), ..self },
            _ => self,
        }
    }

    /// The native read that a read asks for: from the descriptor behind the
    /// handle, at the offset, into a zeroed buffer of `size` bytes.
    pub open spec fn read_request(self, fh: u64, offset: i64, size: u32) -> Result<
        ReadRequestView,
        FsError,
    > {
        if fh < self.opened_files.len() {
            Ok(
                ReadRequestView {
                    fd: self.opened_files[fh as int],
                    offset,
                    buffer: Seq::new(size as nat, |i: int| 0u8),
                },
            )
        } else {
            Err(FsError::InvalidHandle)
        }
    }

    /// The reply to a read, given the buffer that the native read filled and
    /// the number of bytes it reported: exactly those bytes. A count of zero,
    /// as at the end of the file, is a success like any other.
    pub open spec fn read_reply(
        self,
        fh: u64,
        buffer: Seq<u8>,
        native: Result<usize, NativeError>,
    ) -> Result<Seq<u8>, FsError> {
        if fh < self.opened_files.len() {
            match native {
                Ok(count) => Ok(
                    buffer.take(
                        if count <= buffer.len() {
                            count as int
                        } else {
                            buffer.len() as int
                        },
                    ),
                ),
                Err(err) => Err(translated(err)),
            }
        } else {
            Err(FsError::InvalidHandle)
        }
    }

    /// The reply to a release: success, whether or not the handle was ever
    /// handed out.
    pub open spec fn release_reply(self, fh: u64) -> Result<(), FsError> {
        Ok(())
    }

    /// The state after a release: the descriptor stays open and the handle
    /// stays valid, so nothing changes.
    pub open spec fn after_release(self, fh: u64) -> HookFsView {
        self
    }
}

/// The reply to the opening of any directory: the one directory handle, and
/// no flags.
pub open spec fn opendir_reply() -> Result<OpenReply, FsError> {
    Ok(OpenReply { fh: DIRECTORY_HANDLE, flags: 0 })
}

/// The reply to every request for filesystem statistics: nothing in use,
/// nothing free, and the two fixed limits.
pub open spec fn statfs_reply() -> Result<StatfsReply, FsError> {
    Ok(
        StatfsReply {
            blocks: 0,
            bfree: 0,
            bavail: 0,
            files: 0,
            ffree: 0,
            bsize: STATFS_BLOCK_SIZE,
            namelen: STATFS_NAME_LENGTH,
            frsize: 0,
        },
    )
}

} // verus!
