//! What the operations guarantee together, proved of the model that every
//! handler is held to.

use crate::attr::{file_type_of, Timestamp};
use crate::errors::{translated, FsError};
use crate::model::{attr_or_error, HookFsView};
use crate::native::{NativeError, NativeStat, S_IFMT};
use crate::reply::{AttrReply, EntryReply, OpenReply, ReadRequestView};
use vstd::prelude::*;

verus! {

/// A request that changes the tables, with what the native layer reported
/// for it.
pub enum Step {
    /// A lookup of `name`.
    Lookup { name: Seq<u8>, stat: Result<NativeStat, NativeError> },
    /// An open of `ino`.
    Open { ino: u64, native_flags: Option<i32>, opened: Result<i32, NativeError> },
}

/// The state after one step.
pub open spec fn after_step(s: HookFsView, step: Step) -> HookFsView {
    match step {
        Step::Lookup { name, stat } => s.after_lookup(name, stat),
        Step::Open { ino, native_flags, opened } => s.after_open(ino, native_flags, opened),
    }
}

/// The state after a run of steps, first to last.
pub open spec fn after_steps(s: HookFsView, steps: Seq<Step>) -> HookFsView
    decreases steps.len(),
{
    if steps.len() == 0 {
        s
    } else {
        after_step(after_steps(s, steps.drop_last()), steps.last())
    }
}

/// Whether the step is a lookup whose reply hands `ino` out.
pub open spec fn hands_out(step: Step, ino: u64) -> bool {
    match step {
        Step::Lookup { name, stat } => attr_or_error(stat) matches Ok(attr) && attr.ino == ino,
        Step::Open { .. } => false,
    }
}

/// A lookup of a file of a supported type succeeds, and a request for the
/// attributes of the inode that it handed out is then answered from the very
/// path that was looked up. Where the native metadata still shows the same
/// inode, size and type bits, the two records agree on inode, size and
/// type; where it is the same throughout, they are the same record.
pub proof fn lemma_getattr_agrees_with_lookup(
    s: HookFsView,
    name: Seq<u8>,
    found: NativeStat,
    later: NativeStat,
    t1: Timestamp,
    t2: Timestamp,
)
    requires
        file_type_of(found.st_mode) is Some,
        later.st_ino == found.st_ino,
        later.st_size == found.st_size,
        later.st_mode & S_IFMT == found.st_mode & S_IFMT,
    ensures
        s.lookup_reply(Ok(found), t1) is Ok,
        ({
            let entry: EntryReply = s.lookup_reply(Ok(found), t1)->Ok_0;
            let mounted = s.after_lookup(name, Ok(found));
            &&& mounted.getattr_path(entry.attr.ino) == Ok::<Seq<u8>, FsError>(s.lookup_path(name))
            &&& mounted.getattr_reply(entry.attr.ino, Ok(later), t2) is Ok
            &&& ({
                let attrs: AttrReply = mounted.getattr_reply(entry.attr.ino, Ok(later), t2)->Ok_0;
                &&& attrs.attr.ino == entry.attr.ino
                &&& attrs.attr.size == entry.attr.size
                &&& attrs.attr.kind == entry.attr.kind
                &&& later == found ==> attrs.attr == entry.attr
            })
        }),
{
}

/// A lookup of a file whose type is none of the seven supported ones fails
/// with `UnsupportedFileType` and leaves the tables as they were; and every
/// record that a lookup does reply with carries the type that the mode's
/// type bits stand for.
pub proof fn lemma_lookup_rejects_unsupported_types(
    s: HookFsView,
    name: Seq<u8>,
    stat: NativeStat,
    now: Timestamp,
)
    ensures
        file_type_of(stat.st_mode) is None ==> {
            &&& s.lookup_reply(Ok(stat), now) == Err::<EntryReply, FsError>(
                FsError::UnsupportedFileType,
            )
            &&& s.after_lookup(name, Ok(stat)) == s
        },
        s.lookup_reply(Ok(stat), now) matches Ok(entry) ==> file_type_of(stat.st_mode) == Some(
            entry.attr.kind,
        ),
{
}

/// An inode that a lookup hands out is in the inode table, with the path
/// looked up, in the state that the reply is sent from.
pub proof fn lemma_lookup_registers_inode(
    s: HookFsView,
    name: Seq<u8>,
    native: Result<NativeStat, NativeError>,
    now: Timestamp,
)
    ensures
        s.lookup_reply(native, now) matches Ok(entry) ==> {
            let mounted = s.after_lookup(name, native);
            &&& mounted.inode_map.contains_key(entry.attr.ino)
            &&& mounted.inode_map[entry.attr.ino] == s.lookup_path(name)
        },
        s.lookup_reply(native, now) is Err ==> s.after_lookup(name, native) == s,
{
}

/// After an open that succeeds, a read through the handle it handed out asks
/// the native layer for the descriptor that the open yielded, at the offset
/// and with a buffer of the size of the request; and the reply holds exactly
/// the bytes that the native read reports to have put into the buffer.
pub proof fn lemma_read_after_open(
    s: HookFsView,
    ino: u64,
    flags: u32,
    native_flags: Option<i32>,
    fd: i32,
    offset: i64,
    size: u32,
    filled: Seq<u8>,
    count: usize,
)
    requires
        s.wf(),
        s.open_request(ino, native_flags) is Ok,
        count <= filled.len(),
    ensures
        s.open_reply(ino, flags, native_flags, Ok(fd)) is Ok,
        ({
            let opened: OpenReply = s.open_reply(ino, flags, native_flags, Ok(fd))->Ok_0;
            let mounted = s.after_open(ino, native_flags, Ok(fd));
            &&& opened.fh == s.opened_files.len()
            &&& opened.flags == flags
            &&& mounted.read_request(opened.fh, offset, size) is Ok
            &&& ({
                let request: ReadRequestView = mounted.read_request(opened.fh, offset, size)->Ok_0;
                &&& request.fd == fd
                &&& request.offset == offset
                &&& request.buffer.len() == size
            })
            &&& mounted.read_reply(opened.fh, filled, Ok(count)) == Ok::<Seq<u8>, FsError>(
                filled.subrange(0, count as int),
            )
        }),
{
}

/// A read that the native layer answers with no bytes, as it does at and
/// beyond the end of the file, succeeds with an empty reply.
pub proof fn lemma_read_at_end_of_file(s: HookFsView, fh: u64, buffer: Seq<u8>)
    requires
        fh < s.opened_files.len(),
    ensures
        s.read_reply(fh, buffer, Ok(0)) == Ok::<Seq<u8>, FsError>(Seq::empty()),
{
    assert(buffer.take(0) =~= Seq::<u8>::empty());
}

/// A read never replies with more bytes than the buffer of its request
/// holds, nor with more than the native layer reports.
pub proof fn lemma_read_is_bounded(s: HookFsView, fh: u64, buffer: Seq<u8>, count: usize)
    ensures
        s.read_reply(fh, buffer, Ok(count)) matches Ok(data) ==> data.len() <= buffer.len()
            && data.len() <= count && (forall|i: int|
            0 <= i < data.len() ==> data[i] == buffer[i]),
{
}

/// Release succeeds for every handle, handed out or not, and releasing a
/// second time gives the same reply and the same state as releasing once.
pub proof fn lemma_release_is_idempotent(s: HookFsView, fh: u64)
    ensures
        s.release_reply(fh) is Ok,
        s.after_release(fh).release_reply(fh) == s.release_reply(fh),
        s.after_release(fh).after_release(fh) == s.after_release(fh),
        s.after_release(fh) == s,
{
}

/// A request for the attributes of an inode that is not in the inode table
/// fails with `UnknownInode`, whatever the native layer reports.
pub proof fn lemma_getattr_of_unknown_inode(
    s: HookFsView,
    ino: u64,
    native: Result<NativeStat, NativeError>,
    now: Timestamp,
)
    requires
        !s.inode_map.contains_key(ino),
    ensures
        s.getattr_reply(ino, native, now) == Err::<AttrReply, FsError>(FsError::UnknownInode),
        s.getattr_path(ino) == Err::<Seq<u8>, FsError>(FsError::UnknownInode),
{
}

/// The inode table holds, after any run of requests, the inodes it held
/// before and those that a lookup of the run handed out, and no others.
pub proof fn lemma_known_inodes_come_from_lookups(s: HookFsView, steps: Seq<Step>, ino: u64)
    ensures
        after_steps(s, steps).inode_map.contains_key(ino) <==> s.inode_map.contains_key(ino) || (
        exists|i: int| 0 <= i < steps.len() && hands_out(#[trigger] steps[i], ino)),
    decreases steps.len(),
{
    if steps.len() > 0 {
        let earlier = steps.drop_last();
        lemma_known_inodes_come_from_lookups(s, earlier, ino);
        let before = after_steps(s, earlier);
        assert(forall|i: int| 0 <= i < earlier.len() ==> earlier[i] == steps[i]);
        if after_steps(s, steps).inode_map.contains_key(ino) {
            if !before.inode_map.contains_key(ino) {
                assert(hands_out(steps[steps.len() - 1], ino));
            } else if !s.inode_map.contains_key(ino) {
                let i = choose|i: int|
                    0 <= i < earlier.len() && hands_out(#[trigger] earlier[i], ino);
                assert(hands_out(steps[i], ino));
            }
        }
        if exists|i: int| 0 <= i < steps.len() && hands_out(#[trigger] steps[i], ino) {
            let i = choose|i: int| 0 <= i < steps.len() && hands_out(#[trigger] steps[i], ino);
            if i < earlier.len() {
                assert(hands_out(earlier[i], ino));
            }
        }
    }
}

/// In a filesystem that was mounted and has since served any run of
/// requests, a request for the attributes of an inode that no lookup of the
/// run handed out fails with `UnknownInode`.
pub proof fn lemma_getattr_needs_lookup(
    mount_path: Seq<u8>,
    original_path: Seq<u8>,
    steps: Seq<Step>,
    ino: u64,
    native: Result<NativeStat, NativeError>,
    now: Timestamp,
)
    requires
        forall|i: int| 0 <= i < steps.len() ==> !hands_out(#[trigger] steps[i], ino),
    ensures
        after_steps(HookFsView::fresh(mount_path, original_path), steps).getattr_reply(
            ino,
            native,
            now,
        ) == Err::<AttrReply, FsError>(FsError::UnknownInode),
{
    lemma_known_inodes_come_from_lookups(HookFsView::fresh(mount_path, original_path), steps, ino);
}

/// The open file table only grows, and at its end: after any run of
/// requests every handle that was valid before is valid still and names the
/// descriptor it named, so a read through it asks for that descriptor.
pub proof fn lemma_handles_stay_valid(s: HookFsView, steps: Seq<Step>, fh: u64)
    requires
        fh < s.opened_files.len(),
    ensures
        fh < after_steps(s, steps).opened_files.len(),
        after_steps(s, steps).opened_files[fh as int] == s.opened_files[fh as int],
        forall|offset: i64, size: u32| #[trigger]
            after_steps(s, steps).read_request(fh, offset, size) == s.read_request(
                fh,
                offset,
                size,
            ),
    decreases steps.len(),
{
    if steps.len() > 0 {
        lemma_handles_stay_valid(s, steps.drop_last(), fh);
    }
}

/// The handle that an open hands out is the only one that names the
/// descriptor it was handed out for, provided the native layer yielded a
/// descriptor that is not in the table already, as it does while none is
/// closed.
pub proof fn lemma_handle_is_the_only_key(
    s: HookFsView,
    ino: u64,
    flags: u32,
    native_flags: Option<i32>,
    fd: i32,
    other: u64,
)
    requires
        s.wf(),
        s.open_request(ino, native_flags) is Ok,
        !s.opened_files.contains(fd),
    ensures
        ({
            let opened: OpenReply = s.open_reply(ino, flags, native_flags, Ok(fd))->Ok_0;
            let mounted = s.after_open(ino, native_flags, Ok(fd));
            mounted.read_request(other, 0, 0) matches Ok(request) ==> (request.fd == fd <==> other
                == opened.fh)
        }),
{
    if other < s.opened_files.len() {
        assert(s.opened_files.contains(s.opened_files[other as int]));
    }
}

/// A read asks for the descriptor behind its own handle at its own offset,
/// whatever other reads there are: requests through two handles that name
/// different descriptors name different descriptors, each with the offset
/// that was asked of it.
pub proof fn lemma_reads_name_their_own_descriptor(
    s: HookFsView,
    fh1: u64,
    offset1: i64,
    size1: u32,
    fh2: u64,
    offset2: i64,
    size2: u32,
)
    requires
        fh1 < s.opened_files.len(),
        fh2 < s.opened_files.len(),
        s.opened_files[fh1 as int] != s.opened_files[fh2 as int],
    ensures
        s.read_request(fh1, offset1, size1) is Ok,
        s.read_request(fh2, offset2, size2) is Ok,
        ({
            let first: ReadRequestView = s.read_request(fh1, offset1, size1)->Ok_0;
            let second: ReadRequestView = s.read_request(fh2, offset2, size2)->Ok_0;
            &&& first.fd != second.fd
            &&& first.offset == offset1
            &&& second.offset == offset2
        }),
{
}

/// Mount path and original root never change.
pub proof fn lemma_paths_are_fixed(s: HookFsView, steps: Seq<Step>)
    ensures
        after_steps(s, steps).mount_path == s.mount_path,
        after_steps(s, steps).original_path == s.original_path,
    decreases steps.len(),
{
    if steps.len() > 0 {
        lemma_paths_are_fixed(s, steps.drop_last());
    }
}

/// A request that fails changes neither table.
pub proof fn lemma_failure_changes_nothing(s: HookFsView, step: Step, now: Timestamp, flags: u32)
    ensures
        match step {
            Step::Lookup { name, stat } => s.lookup_reply(stat, now) is Err ==> after_step(
                s,
                step,
            ) == s,
            Step::Open { ino, native_flags, opened } => s.open_reply(
                ino,
                flags,
                native_flags,
                opened,
            ) is Err ==> after_step(s, step) == s,
        },
{
}

/// A native failure reaches the caller as its own error number when it has
/// a recognized one, and as the reserved value otherwise, in every
/// operation that calls the native layer.
pub proof fn lemma_native_failures_are_translated(
    s: HookFsView,
    err: NativeError,
    name: Seq<u8>,
    ino: u64,
    fh: u64,
    flags: u32,
    native_flags: Option<i32>,
    buffer: Seq<u8>,
    now: Timestamp,
)
    ensures
        s.lookup_reply(Err(err), now) == Err::<EntryReply, FsError>(translated(err)),
        s.inode_map.contains_key(ino) ==> s.getattr_reply(ino, Err(err), now) == Err::<
            AttrReply,
            FsError,
        >(translated(err)),
        s.open_request(ino, native_flags) is Ok ==> s.open_reply(
            ino,
            flags,
            native_flags,
            Err(err),
        ) == Err::<OpenReply, FsError>(translated(err)),
        fh < s.opened_files.len() ==> s.read_reply(fh, buffer, Err(err)) == Err::<
            Seq<u8>,
            FsError,
        >(translated(err)),
{
}

} // verus!
