//! The filesystem: its two tables, and the handlers of the protocol's
//! operations.

use crate::attr::{convert_libc_stat_to_fuse_stat, FileAttr, Timestamp};
use crate::clock::{get_time, is_clock_reading};
use crate::errors::{translate_error, FsError};
use crate::flags::{
    native_flag_bits, native_open_flags, oflag_from_bits, sanitized_flags, OPEN_MODE,
};
use crate::model::{attr_or_error, opendir_reply, statfs_reply, HookFsView};
use crate::native::{NativeError, NativeStat};
use crate::paths::join_path;
use crate::reply::{
    view_result, AttrReply, EntryReply, OpenReply, OpenRequest, ReadRequest, StatfsReply,
    DIRECTORY_HANDLE, GENERATION, STATFS_BLOCK_SIZE, STATFS_NAME_LENGTH,
};
use std::collections::HashMap;
use vstd::prelude::*;

verus! {

broadcast use vstd::std_specs::hash::group_hash_axioms;

/// A mounted passthrough filesystem.
///
/// The value is the whole shared state. Every operation that changes a
/// table takes it by `&mut`, so that callers who serve requests from several
/// threads have to put it behind one lock, which serializes the tables.
#[derive(Clone, Debug)]
pub struct HookFs {
    mount_path: Vec<u8>,
    original_path: Vec<u8>,
    /// The open file table: native descriptors, addressed by position.
    opened_files: Vec<i32>,
    /// The inode table: the native path of every inode handed out.
    inode_map: HashMap<u64, Vec<u8>>,
}

impl View for HookFs {
    type V = HookFsView;

    closed spec fn view(&self) -> HookFsView {
        HookFsView {
            mount_path: self.mount_path@,
            original_path: self.original_path@,
            inode_map: self.inode_map@.map_values(|path: Vec<u8>| path@),
            opened_files: self.opened_files@,
        }
    }
}

/// A copy of a byte string.
fn copy_bytes(bytes: &[u8]) -> (copy: Vec<u8>)
    ensures
        copy@ == bytes@,
{
    let mut copy: Vec<u8> = Vec::new();
    copy.extend_from_slice(bytes);
    assert(copy@ =~= bytes@);
    copy
}

/// Turns what the native `stat` reported into an attribute record or the
/// error that the request fails with.
fn stat_outcome(native: Result<NativeStat, NativeError>) -> (outcome: Result<FileAttr, FsError>)
    ensures
        outcome == attr_or_error(native),
{
    match native {
        Ok(stat) => match convert_libc_stat_to_fuse_stat(stat) {
            Some(attr) => Ok(attr),
            None => Err(FsError::UnsupportedFileType),
        },
        Err(err) => Err(translate_error(err)),
    }
}

impl HookFs {
    /// The state of a filesystem in memory is always well formed.
    pub proof fn lemma_view_wf(&self)
        ensures
            self@.wf(),
    {
        assert(self.opened_files.len() == self.opened_files@.len());
    }

    /// A filesystem to be mounted at `mount_path` over the tree rooted at
    /// `original_path`, with both tables empty.
    pub fn new(mount_path: &[u8], original_path: &[u8]) -> (fs: HookFs)
        ensures
            fs@ == HookFsView::fresh(mount_path@, original_path@),
    {
        let fs = HookFs {
            mount_path: copy_bytes(mount_path),
            original_path: copy_bytes(original_path),
            opened_files: Vec::new(),
            inode_map: HashMap::new(),
        };
        assert(fs@.inode_map =~= Map::empty());
        fs
    }

    /// Where the filesystem is mounted.
    pub fn mount_path(&self) -> (path: &[u8])
        ensures
            path@ == self@.mount_path,
    {
        self.mount_path.as_slice()
    }

    /// Root of the directory tree that requests are answered from.
    pub fn original_path(&self) -> (path: &[u8])
        ensures
            path@ == self@.original_path,
    {
        self.original_path.as_slice()
    }

    /// Number of descriptors in the open file table, which is the handle
    /// that the next successful open hands out.
    pub fn open_file_count(&self) -> (count: usize)
        ensures
            count == self@.opened_files.len(),
    {
        self.opened_files.len()
    }

    /// Whether the inode table holds `ino`.
    pub fn knows_inode(&self, ino: u64) -> (known: bool)
        ensures
            known == self@.inode_map.contains_key(ino),
    {
        self.inode_map.contains_key(&ino)
    }

    /// Called once before any request; there is nothing to set up.
    pub fn init(&mut self) -> (reply: Result<(), FsError>)
        ensures
            reply is Ok,
            final(self)@ == old(self)@,
    {
        Ok(())
    }

    /// Called once on unmount. Both tables are left as they are and go with
    /// the value.
    pub fn destroy(&mut self)
        ensures
            final(self)@ == old(self)@,
    {
    }

    /// The kernel drops `nlookup` references to `ino`. Entries of the inode
    /// table are never evicted, so the inode stays known.
    pub fn forget(&mut self, ino: u64, nlookup: u64)
        ensures
            final(self)@ == old(self)@,
    {
    }

    /// The native path that a lookup of `name` examines: the name joined to
    /// the original root. Names are resolved one level below the root, so
    /// the parent does not enter.
    pub fn lookup_path(&self, parent: u64, name: &[u8]) -> (path: Vec<u8>)
        ensures
            path@ == self@.lookup_path(name@),
    {
        join_path(self.original_path.as_slice(), name)
    }

    /// Completes a lookup of `name`, given what the native `stat` of
    /// `lookup_path` reported and the clock reading to stamp the reply with.
    ///
    /// A native failure is translated. Metadata of a file type that an
    /// attribute record cannot express fails with `UnsupportedFileType`.
    /// Otherwise the inode is entered into the inode table with the path
    /// looked up, and the reply carries the attribute record, generation
    /// zero and the clock reading as its validity.
    pub fn lookup_at(
        &mut self,
        parent: u64,
        name: &[u8],
        native: Result<NativeStat, NativeError>,
        now: Timestamp,
    ) -> (reply: Result<EntryReply, FsError>)
        ensures
            reply == old(self)@.lookup_reply(native, now),
            final(self)@ == old(self)@.after_lookup(name@, native),
    {
        match stat_outcome(native) {
            Ok(attr) => {
                let path = self.lookup_path(parent, name);
                self.inode_map.insert(attr.ino, path);
                assert(self@.inode_map =~= old(self)@.inode_map.insert(attr.ino, path@));
                Ok(EntryReply { ttl: now, attr, generation: GENERATION })
            },
            Err(e) => Err(e),
        }
    }

    /// Completes a lookup of `name`, given what the native `stat` of
    /// `lookup_path` reported. The reply is stamped with a reading of the
    /// clock taken here.
    pub fn lookup(
        &mut self,
        parent: u64,
        name: &[u8],
        native: Result<NativeStat, NativeError>,
    ) -> (reply: Result<EntryReply, FsError>)
        ensures
            exists|now: Timestamp| #[trigger]
                is_clock_reading(now) && reply == old(self)@.lookup_reply(native, now),
            final(self)@ == old(self)@.after_lookup(name@, native),
    {
        let now = get_time();
        let reply = self.lookup_at(parent, name, native, now);
        assert(is_clock_reading(now) && reply == old(self)@.lookup_reply(native, now));
        reply
    }

    /// The native path whose metadata a request for the attributes of `ino`
    /// needs, or `UnknownInode` where no lookup has handed the inode out.
    pub fn getattr_path(&self, ino: u64) -> (path: Result<Vec<u8>, FsError>)
        ensures
            view_result(path) == self@.getattr_path(ino),
    {
        match self.inode_map.get(&ino) {
            Some(path) => Ok(path.clone()),
            None => Err(FsError::UnknownInode),
        }
    }

    /// Answers a request for the attributes of `ino`, given what the native
    /// `stat` of `getattr_path` reported and the clock reading to stamp the
    /// reply with.
    ///
    /// An inode that is not in the inode table fails with `UnknownInode`,
    /// whatever the native layer reported. Otherwise the metadata is
    /// translated as in a lookup.
    pub fn getattr_at(
        &self,
        ino: u64,
        native: Result<NativeStat, NativeError>,
        now: Timestamp,
    ) -> (reply: Result<AttrReply, FsError>)
        ensures
            reply == self@.getattr_reply(ino, native, now),
    {
        if !self.inode_map.contains_key(&ino) {
            return Err(FsError::UnknownInode);
        }
        match stat_outcome(native) {
            Ok(attr) => Ok(AttrReply { ttl: now, attr }),
            Err(e) => Err(e),
        }
    }

    /// Answers a request for the attributes of `ino`, given what the native
    /// `stat` of `getattr_path` reported. The reply is stamped with a
    /// reading of the clock taken here.
    pub fn getattr(&self, ino: u64, native: Result<NativeStat, NativeError>) -> (reply: Result<
        AttrReply,
        FsError,
    >)
        ensures
            exists|now: Timestamp| #[trigger]
                is_clock_reading(now) && reply == self@.getattr_reply(ino, native, now),
    {
        let now = get_time();
        let reply = self.getattr_at(ino, native, now);
        assert(is_clock_reading(now) && reply == self@.getattr_reply(ino, native, now));
        reply
    }

    /// The native open that an open of `ino` asks for, given the native form
    /// of its flags.
    pub fn open_request_with(&self, ino: u64, native_flags: Option<i32>) -> (request: Result<
        OpenRequest,
        FsError,
    >)
        ensures
            view_result(request) == self@.open_request(ino, native_flags),
    {
        let bits = match native_flags {
            Some(bits) => bits,
            None => return Err(FsError::InvalidFlags),
        };
        match self.inode_map.get(&ino) {
            Some(path) => Ok(OpenRequest { path: path.clone(), flags: bits, mode: OPEN_MODE }),
            None => Err(FsError::UnknownInode),
        }
    }

    /// The native open that an open of `ino` with `flags` asks for.
    ///
    /// The append flag and the kernel's reserved bit are cleared first. What
    /// is left must have a native form, else the request fails with
    /// `InvalidFlags`; flags that are empty once cleared always have one.
    /// Then the inode must be in the table, else the request fails with
    /// `UnknownInode`.
    pub fn open_request(&self, ino: u64, flags: u32) -> (request: Result<OpenRequest, FsError>)
        ensures
            view_result(request) == self@.open_request(
                ino,
                oflag_from_bits(native_flag_bits(flags)),
            ),
            request matches Ok(r) ==> r.flags == native_flag_bits(flags),
            sanitized_flags(flags) == 0 ==> oflag_from_bits(native_flag_bits(flags)) == Some(0i32),
    {
        let native_flags = native_open_flags(flags);
        self.open_request_with(ino, native_flags)
    }

    /// Completes an open, given the native form of its flags and what the
    /// native open reported.
    ///
    /// A request that `open_request_with` refuses is refused here in the
    /// same way. Otherwise a native failure is translated, and a descriptor
    /// is appended to the open file table and its position handed out as
    /// the handle, together with the flags as they came.
    pub fn open_with(
        &mut self,
        ino: u64,
        flags: u32,
        native_flags: Option<i32>,
        native: Result<i32, NativeError>,
    ) -> (reply: Result<OpenReply, FsError>)
        ensures
            reply == old(self)@.open_reply(ino, flags, native_flags, native),
            final(self)@ == old(self)@.after_open(ino, native_flags, native),
    {
        if native_flags.is_none() {
            return Err(FsError::InvalidFlags);
        }
        if !self.inode_map.contains_key(&ino) {
            return Err(FsError::UnknownInode);
        }
        match native {
            Ok(fd) => {
                self.opened_files.push(fd);
                Ok(OpenReply { fh: (self.opened_files.len() - 1) as u64, flags })
            },
            Err(err) => Err(translate_error(err)),
        }
    }

    /// Completes an open, given what the native open reported.
    pub fn open(&mut self, ino: u64, flags: u32, native: Result<i32, NativeError>) -> (reply:
        Result<OpenReply, FsError>)
        ensures
            reply == old(self)@.open_reply(
                ino,
                flags,
                oflag_from_bits(native_flag_bits(flags)),
                native,
            ),
            final(self)@ == old(self)@.after_open(
                ino,
                oflag_from_bits(native_flag_bits(flags)),
                native,
            ),
            sanitized_flags(flags) == 0 ==> oflag_from_bits(native_flag_bits(flags)) == Some(0i32),
    {
        let native_flags = native_open_flags(flags);
        self.open_with(ino, flags, native_flags, native)
    }

    /// The native read that a read of `size` bytes at `offset` through the
    /// handle `fh` asks for: the descriptor behind the handle, the offset to
    /// position it at, and a zeroed buffer of `size` bytes to read into. A
    /// handle that no open has handed out fails with `InvalidHandle`.
    pub fn read_request(&self, fh: u64, offset: i64, size: u32) -> (request: Result<
        ReadRequest,
        FsError,
    >)
        ensures
            view_result(request) == self@.read_request(fh, offset, size),
    {
        if fh >= self.opened_files.len() as u64 {
            return Err(FsError::InvalidHandle);
        }
        let fd = self.opened_files[fh as usize];
        let mut buffer: Vec<u8> = Vec::new();
        buffer.resize(size as usize, 0u8);
        assert(buffer@ =~= Seq::new(size as nat, |i: int| 0u8));
        Ok(ReadRequest { fd, offset, buffer })
    }

    /// Completes a read through the handle `fh`, given the buffer and what
    /// the native layer reported of positioning the descriptor and reading
    /// into the buffer: the number of bytes read, or the failure of either
    /// step.
    ///
    /// The reply holds exactly the bytes read, which may be fewer than were
    /// asked for and, at the end of the file, none. A native failure is
    /// translated. A handle that no open has handed out fails with
    /// `InvalidHandle`.
    pub fn read(&self, fh: u64, buffer: Vec<u8>, native: Result<usize, NativeError>) -> (reply:
        Result<Vec<u8>, FsError>)
        ensures
            view_result(reply) == self@.read_reply(fh, buffer@, native),
    {
        if fh >= self.opened_files.len() as u64 {
            return Err(FsError::InvalidHandle);
        }
        match native {
            Ok(count) => {
                let mut data = buffer;
                data.truncate(count);
                assert(data@ =~= buffer@.take(
                    if count <= buffer@.len() {
                        count as int
                    } else {
                        buffer@.len() as int
                    },
                ));
                Ok(data)
            },
            Err(err) => Err(translate_error(err)),
        }
    }

    /// Releases an open file. The reply is a success for every handle,
    /// handed out or not, and however often it is released. The descriptor
    /// stays open and its handle valid: the open file table only grows.
    pub fn release(
        &mut self,
        ino: u64,
        fh: u64,
        flags: u32,
        lock_owner: u64,
        flush: bool,
    ) -> (reply: Result<(), FsError>)
        ensures
            reply == old(self)@.release_reply(fh),
            final(self)@ == old(self)@.after_release(fh),
    {
        Ok(())
    }

    /// Opens a directory: always the one directory handle, with no flags. No
    /// state is kept for it, and its entries cannot be listed.
    pub fn opendir(&self, ino: u64, flags: u32) -> (reply: Result<OpenReply, FsError>)
        ensures
            reply == opendir_reply(),
    {
        Ok(OpenReply { fh: DIRECTORY_HANDLE, flags: 0 })
    }

    /// Releases a directory handle: always a success.
    pub fn releasedir(&self, ino: u64, fh: u64, flags: u32) -> (reply: Result<(), FsError>)
        ensures
            reply is Ok,
    {
        Ok(())
    }

    /// Filesystem statistics: nothing in use, nothing free, a block size of
    /// 512 and names of up to 255 bytes.
    pub fn statfs(&self, ino: u64) -> (reply: Result<StatfsReply, FsError>)
        ensures
            reply == statfs_reply(),
    {
        Ok(
            StatfsReply {
                blocks: 0,
                bfree: 0,
                bavail: 0,
                files: 0,
                ffree: 0,
                bsize: STATFS_BLOCK_SIZE,
                namelen: STATFS_NAME_LENGTH,
                frsize: 0,
            },
        )
    }
}

} // verus!
