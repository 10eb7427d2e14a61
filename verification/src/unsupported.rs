//! The operations of the protocol that this filesystem leaves out.
//!
//! Each of them is there, so that a client that probes for it gets an
//! answer, and each answers with `FsError::NotSupported` whatever it is
//! asked.

use crate::attr::Timestamp;
use crate::errors::FsError;
use crate::hookfs::HookFs;
use vstd::prelude::*;

verus! {

impl HookFs {
    /// Setting attributes is not supported.
    pub fn setattr(
        &self,
        ino: u64,
        mode: Option<u32>,
        uid: Option<u32>,
        gid: Option<u32>,
        size: Option<u64>,
        atime: Option<Timestamp>,
        mtime: Option<Timestamp>,
        fh: Option<u64>,
        crtime: Option<Timestamp>,
        chgtime: Option<Timestamp>,
        bkuptime: Option<Timestamp>,
        flags: Option<u32>,
    ) -> (error: FsError)
        ensures
            error == FsError::NotSupported,
    {
        FsError::NotSupported
    }

    /// Reading a symbolic link is not supported.
    pub fn readlink(&self, ino: u64) -> (error: FsError)
        ensures
            error == FsError::NotSupported,
    {
        FsError::NotSupported
    }

    /// Creating a file node is not supported.
    pub fn mknod(&self, parent: u64, name: &[u8], mode: u32, rdev: u32) -> (error: FsError)
        ensures
            error == FsError::NotSupported,
    {
        FsError::NotSupported
    }

    /// Creating a directory is not supported.
    pub fn mkdir(&self, parent: u64, name: &[u8], mode: u32) -> (error: FsError)
        ensures
            error == FsError::NotSupported,
    {
        FsError::NotSupported
    }

    /// Removing a file is not supported.
    pub fn unlink(&self, parent: u64, name: &[u8]) -> (error: FsError)
        ensures
            error == FsError::NotSupported,
    {
        FsError::NotSupported
    }

    /// Removing a directory is not supported.
    pub fn rmdir(&self, parent: u64, name: &[u8]) -> (error: FsError)
        ensures
            error == FsError::NotSupported,
    {
        FsError::NotSupported
    }

    /// Creating a symbolic link is not supported.
    pub fn symlink(&self, parent: u64, name: &[u8], link: &[u8]) -> (error: FsError)
        ensures
            error == FsError::NotSupported,
    {
        FsError::NotSupported
    }

    /// Renaming is not supported.
    pub fn rename(&self, parent: u64, name: &[u8], newparent: u64, newname: &[u8]) -> (error:
        FsError)
        ensures
            error == FsError::NotSupported,
    {
        FsError::NotSupported
    }

    /// Creating a hard link is not supported.
    pub fn link(&self, ino: u64, newparent: u64, newname: &[u8]) -> (error: FsError)
        ensures
            error == FsError::NotSupported,
    {
        FsError::NotSupported
    }

    /// Writing is not supported.
    pub fn write(&self, ino: u64, fh: u64, offset: i64, data: &[u8], flags: u32) -> (error:
        FsError)
        ensures
            error == FsError::NotSupported,
    {
        FsError::NotSupported
    }

    /// Flushing is not supported.
    pub fn flush(&self, ino: u64, fh: u64, lock_owner: u64) -> (error: FsError)
        ensures
            error == FsError::NotSupported,
    {
        FsError::NotSupported
    }

    /// Synchronizing a file is not supported.
    pub fn fsync(&self, ino: u64, fh: u64, datasync: bool) -> (error: FsError)
        ensures
            error == FsError::NotSupported,
    {
        FsError::NotSupported
    }

    /// Listing a directory is not supported, although a directory can be
    /// opened.
    pub fn readdir(&self, ino: u64, fh: u64, offset: i64) -> (error: FsError)
        ensures
            error == FsError::NotSupported,
    {
        FsError::NotSupported
    }

    /// Synchronizing a directory is not supported.
    pub fn fsyncdir(&self, ino: u64, fh: u64, datasync: bool) -> (error: FsError)
        ensures
            error == FsError::NotSupported,
    {
        FsError::NotSupported
    }

    /// Setting an extended attribute is not supported.
    pub fn setxattr(
        &self,
        ino: u64,
        name: &[u8],
        value: &[u8],
        flags: u32,
        position: u32,
    ) -> (error: FsError)
        ensures
            error == FsError::NotSupported,
    {
        FsError::NotSupported
    }

    /// Reading an extended attribute is not supported.
    pub fn getxattr(&self, ino: u64, name: &[u8], size: u32) -> (error: FsError)
        ensures
            error == FsError::NotSupported,
    {
        FsError::NotSupported
    }

    /// Listing extended attributes is not supported.
    pub fn listxattr(&self, ino: u64, size: u32) -> (error: FsError)
        ensures
            error == FsError::NotSupported,
    {
        FsError::NotSupported
    }

    /// Removing an extended attribute is not supported.
    pub fn removexattr(&self, ino: u64, name: &[u8]) -> (error: FsError)
        ensures
            error == FsError::NotSupported,
    {
        FsError::NotSupported
    }

    /// Checking access is not supported.
    pub fn access(&self, ino: u64, mask: u32) -> (error: FsError)
        ensures
            error == FsError::NotSupported,
    {
        FsError::NotSupported
    }

    /// Creating and opening a file is not supported.
    pub fn create(&self, parent: u64, name: &[u8], mode: u32, flags: u32) -> (error: FsError)
        ensures
            error == FsError::NotSupported,
    {
        FsError::NotSupported
    }

    /// Querying a lock is not supported.
    pub fn getlk(
        &self,
        ino: u64,
        fh: u64,
        lock_owner: u64,
        start: u64,
        end: u64,
        typ: u32,
        pid: u32,
    ) -> (error: FsError)
        ensures
            error == FsError::NotSupported,
    {
        FsError::NotSupported
    }

    /// Setting a lock is not supported.
    pub fn setlk(
        &self,
        ino: u64,
        fh: u64,
        lock_owner: u64,
        start: u64,
        end: u64,
        typ: u32,
        pid: u32,
        sleep: bool,
    ) -> (error: FsError)
        ensures
            error == FsError::NotSupported,
    {
        FsError::NotSupported
    }

    /// Mapping a block is not supported.
    pub fn bmap(&self, ino: u64, blocksize: u32, idx: u64) -> (error: FsError)
        ensures
            error == FsError::NotSupported,
    {
        FsError::NotSupported
    }
}

} // verus!
