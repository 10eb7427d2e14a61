use hookfs::attr::{FileAttr, FileType, Timestamp};
use hookfs::native::{S_IFDIR, S_IFIFO, S_IFREG};
use hookfs::reply::{AttrReply, EntryReply, OpenReply, OpenRequest, ReadRequest, StatfsReply};
use hookfs::{FsError, HookFs, NativeError, NativeStat};

fn stat_of(ino: u64, mode: u32, size: i64) -> NativeStat {
    NativeStat {
        st_ino: ino,
        st_nlink: 1,
        st_mode: mode,
        st_uid: 1000,
        st_gid: 1000,
        st_rdev: 0,
        st_size: size,
        st_blocks: 8,
        st_atime: 100,
        st_atime_nsec: 1,
        st_mtime: 200,
        st_mtime_nsec: 2,
        st_ctime: 300,
        st_ctime_nsec: 3,
    }
}

fn attr_of(ino: u64, kind: FileType, perm: u16, size: u64) -> FileAttr {
    FileAttr {
        ino,
        size,
        blocks: 8,
        atime: Timestamp { sec: 100, nsec: 1 },
        mtime: Timestamp { sec: 200, nsec: 2 },
        ctime: Timestamp { sec: 300, nsec: 3 },
        crtime: Timestamp { sec: 0, nsec: 0 },
        kind,
        perm,
        nlink: 1,
        uid: 1000,
        gid: 1000,
        rdev: 0,
        flags: 0,
    }
}

const NOW: Timestamp = Timestamp { sec: 1_700_000_000, nsec: 500 };
const LATER: Timestamp = Timestamp { sec: 1_700_000_009, nsec: 7 };

fn enoent() -> NativeError {
    NativeError::Sys { errno: 2 }
}

#[test]
fn new_filesystem_has_empty_tables() {
    let fs = HookFs::new(b"/mnt/hook", b"/srv/data");
    assert_eq!(fs.mount_path(), b"/mnt/hook");
    assert_eq!(fs.original_path(), b"/srv/data");
    assert_eq!(fs.open_file_count(), 0);
    assert!(!fs.knows_inode(0));
    assert!(!fs.knows_inode(1));
    assert_eq!(fs.getattr_path(1), Err(FsError::UnknownInode));
    assert_eq!(fs.read_request(0, 0, 1), Err(FsError::InvalidHandle));
}

#[test]
fn ten_byte_file_is_looked_up_opened_read_and_released() {
    let mut fs = HookFs::new(b"/mnt", b"/orig");
    assert_eq!(fs.lookup_path(1, b"f"), b"/orig/f".to_vec());
    let entry = fs.lookup_at(1, b"f", Ok(stat_of(42, S_IFREG | 0o644, 10)), NOW).unwrap();
    assert_eq!(entry.attr.kind, FileType::RegularFile);
    assert_eq!(entry.attr.size, 10);
    assert_eq!(entry.attr.ino, 42);

    let request = fs.open_request(42, libc::O_RDONLY as u32).unwrap();
    assert_eq!(request, OpenRequest { path: b"/orig/f".to_vec(), flags: 0, mode: 0o7777 });
    let opened = fs.open(42, libc::O_RDONLY as u32, Ok(5)).unwrap();
    assert_eq!(opened, OpenReply { fh: 0, flags: 0 });

    let request = fs.read_request(0, 0, 20).unwrap();
    assert_eq!(request, ReadRequest { fd: 5, offset: 0, buffer: vec![0u8; 20] });
    let mut filled = request.buffer;
    filled[..10].copy_from_slice(b"0123456789");
    assert_eq!(fs.read(0, filled, Ok(10)), Ok(b"0123456789".to_vec()));

    let request = fs.read_request(0, 10, 5).unwrap();
    assert_eq!(request, ReadRequest { fd: 5, offset: 10, buffer: vec![0u8; 5] });
    assert_eq!(fs.read(0, request.buffer, Ok(0)), Ok(Vec::new()));

    assert_eq!(fs.release(42, 0, 0, 0, false), Ok(()));
}

#[test]
fn named_pipe_is_looked_up_as_named_pipe() {
    let mut fs = HookFs::new(b"/mnt", b"/orig");
    let entry = fs.lookup_at(1, b"p", Ok(stat_of(7, S_IFIFO | 0o600, 0)), NOW);
    assert_eq!(
        entry,
        Ok(EntryReply {
            ttl: NOW,
            attr: attr_of(7, FileType::NamedPipe, 0o600, 0),
            generation: 0
        })
    );
    assert!(fs.knows_inode(7));
    assert_eq!(fs.getattr_path(7), Ok(b"/orig/p".to_vec()));
}

#[test]
fn lookup_replies_with_record_generation_zero_and_the_clock_reading() {
    let mut fs = HookFs::new(b"/mnt", b"/orig/");
    let reply = fs.lookup_at(1, b"dir", Ok(stat_of(3, S_IFDIR | 0o755, 4096)), NOW);
    assert_eq!(
        reply,
        Ok(EntryReply {
            ttl: Timestamp { sec: 1_700_000_000, nsec: 500 },
            attr: attr_of(3, FileType::Directory, 0o755, 4096),
            generation: 0
        })
    );
    assert_eq!(fs.getattr_path(3), Ok(b"/orig/dir".to_vec()));
}

#[test]
fn lookup_of_unsupported_type_fails_and_enters_nothing() {
    let mut fs = HookFs::new(b"/mnt", b"/orig");
    let reply = fs.lookup_at(1, b"odd", Ok(stat_of(9, 0o644, 10)), NOW);
    assert_eq!(reply, Err(FsError::UnsupportedFileType));
    assert!(!fs.knows_inode(9));
    let reply = fs.lookup_at(1, b"odd", Ok(stat_of(9, 0o170000 | 0o644, 10)), NOW);
    assert_eq!(reply, Err(FsError::UnsupportedFileType));
    assert!(!fs.knows_inode(9));
    assert_eq!(fs.getattr_at(9, Ok(stat_of(9, S_IFREG, 0)), NOW), Err(FsError::UnknownInode));
}

#[test]
fn lookup_translates_native_failure_and_enters_nothing() {
    let mut fs = HookFs::new(b"/mnt", b"/orig");
    assert_eq!(fs.lookup_at(1, b"gone", Err(enoent()), NOW), Err(FsError::Native { errno: 2 }));
    assert_eq!(
        fs.lookup_at(1, b"gone", Err(NativeError::Sys { errno: 13 }), NOW).unwrap_err().errno(),
        13
    );
    assert_eq!(fs.lookup_at(1, b"bad\0name", Err(NativeError::InvalidPath), NOW), Err(FsError::Unknown));
    assert_eq!(fs.lookup_at(1, b"x", Err(NativeError::InvalidPath), NOW).unwrap_err().errno(), -1);
    assert!(!fs.knows_inode(0));
    assert_eq!(fs.open_file_count(), 0);
}

#[test]
fn lookup_resolves_below_the_root_whatever_the_parent() {
    let mut fs = HookFs::new(b"/mnt", b"/orig");
    assert_eq!(fs.lookup_path(1, b"a"), b"/orig/a".to_vec());
    assert_eq!(fs.lookup_path(77, b"a"), b"/orig/a".to_vec());
    fs.lookup_at(1, b"d", Ok(stat_of(10, S_IFDIR | 0o755, 0)), NOW).unwrap();
    fs.lookup_at(10, b"inner", Ok(stat_of(11, S_IFREG | 0o644, 0)), NOW).unwrap();
    assert_eq!(fs.getattr_path(11), Ok(b"/orig/inner".to_vec()));
}

#[test]
fn later_lookup_of_an_inode_replaces_its_path() {
    let mut fs = HookFs::new(b"/mnt", b"/orig");
    fs.lookup_at(1, b"a", Ok(stat_of(5, S_IFREG | 0o644, 1)), NOW).unwrap();
    fs.lookup_at(1, b"b", Ok(stat_of(6, S_IFREG | 0o644, 1)), NOW).unwrap();
    fs.lookup_at(1, b"hardlink", Ok(stat_of(5, S_IFREG | 0o644, 1)), NOW).unwrap();
    assert_eq!(fs.getattr_path(5), Ok(b"/orig/hardlink".to_vec()));
    assert_eq!(fs.getattr_path(6), Ok(b"/orig/b".to_vec()));
}

#[test]
fn lookup_then_getattr_agree_on_inode_size_and_type() {
    let mut fs = HookFs::new(b"/mnt", b"/orig");
    let stat = stat_of(42, S_IFREG | 0o640, 1234);
    let entry = fs.lookup_at(1, b"f", Ok(stat), NOW).unwrap();
    let attrs = fs.getattr_at(entry.attr.ino, Ok(stat), LATER).unwrap();
    assert_eq!(attrs.attr.ino, entry.attr.ino);
    assert_eq!(attrs.attr.size, entry.attr.size);
    assert_eq!(attrs.attr.kind, entry.attr.kind);
    assert_eq!(attrs, AttrReply { ttl: LATER, attr: attr_of(42, FileType::RegularFile, 0o640, 1234) });

    let mut touched = stat;
    touched.st_atime = 999;
    touched.st_mode = S_IFREG | 0o600;
    let attrs = fs.getattr_at(entry.attr.ino, Ok(touched), LATER).unwrap();
    assert_eq!(attrs.attr.ino, 42);
    assert_eq!(attrs.attr.size, 1234);
    assert_eq!(attrs.attr.kind, FileType::RegularFile);
    assert_eq!(attrs.attr.perm, 0o600);
}

#[test]
fn getattr_of_unknown_inode_fails_with_unknown_inode() {
    let mut fs = HookFs::new(b"/mnt", b"/orig");
    assert_eq!(fs.getattr_path(42), Err(FsError::UnknownInode));
    assert_eq!(
        fs.getattr_at(42, Ok(stat_of(42, S_IFREG | 0o644, 1)), NOW),
        Err(FsError::UnknownInode)
    );
    assert_eq!(fs.getattr_at(42, Err(enoent()), NOW), Err(FsError::UnknownInode));
    assert_eq!(fs.getattr(42, Err(enoent())), Err(FsError::UnknownInode));
    fs.lookup_at(1, b"f", Ok(stat_of(41, S_IFREG | 0o644, 1)), NOW).unwrap();
    fs.lookup_at(1, b"g", Err(enoent()), NOW).unwrap_err();
    fs.open(41, 0, Ok(3)).unwrap();
    fs.release(41, 0, 0, 0, false).unwrap();
    fs.forget(41, 1);
    assert_eq!(fs.getattr_at(42, Ok(stat_of(42, S_IFREG, 1)), NOW), Err(FsError::UnknownInode));
    assert_eq!(fs.getattr_at(0, Ok(stat_of(0, S_IFREG, 1)), NOW), Err(FsError::UnknownInode));
    assert_eq!(fs.getattr_at(u64::MAX, Err(enoent()), NOW), Err(FsError::UnknownInode));
}

#[test]
fn getattr_of_known_inode_translates_what_the_native_layer_reports() {
    let mut fs = HookFs::new(b"/mnt", b"/orig");
    fs.lookup_at(1, b"f", Ok(stat_of(42, S_IFREG | 0o644, 1)), NOW).unwrap();
    assert_eq!(fs.getattr_at(42, Err(enoent()), NOW), Err(FsError::Native { errno: 2 }));
    assert_eq!(fs.getattr_at(42, Err(NativeError::InvalidUtf8), NOW), Err(FsError::Unknown));
    assert_eq!(fs.getattr_at(42, Ok(stat_of(42, 0o644, 1)), NOW), Err(FsError::UnsupportedFileType));
    assert_eq!(
        fs.getattr_at(42, Ok(stat_of(42, S_IFDIR | 0o700, 64)), NOW),
        Ok(AttrReply { ttl: NOW, attr: attr_of(42, FileType::Directory, 0o700, 64) })
    );
}

#[test]
fn forget_keeps_the_inode() {
    let mut fs = HookFs::new(b"/mnt", b"/orig");
    fs.lookup_at(1, b"f", Ok(stat_of(42, S_IFREG | 0o644, 1)), NOW).unwrap();
    fs.forget(42, 1);
    fs.forget(42, u64::MAX);
    fs.forget(43, 1);
    assert!(fs.knows_inode(42));
    assert_eq!(fs.getattr_path(42), Ok(b"/orig/f".to_vec()));
}

#[test]
fn init_and_destroy_leave_the_tables() {
    let mut fs = HookFs::new(b"/mnt", b"/orig");
    assert_eq!(fs.init(), Ok(()));
    fs.lookup_at(1, b"f", Ok(stat_of(42, S_IFREG | 0o644, 1)), NOW).unwrap();
    fs.open(42, 0, Ok(3)).unwrap();
    assert_eq!(fs.init(), Ok(()));
    fs.destroy();
    assert!(fs.knows_inode(42));
    assert_eq!(fs.open_file_count(), 1);
}

#[test]
fn open_hands_out_handles_in_order_and_echoes_the_flags() {
    let mut fs = HookFs::new(b"/mnt", b"/orig");
    fs.lookup_at(1, b"a", Ok(stat_of(1, S_IFREG | 0o644, 1)), NOW).unwrap();
    fs.lookup_at(1, b"b", Ok(stat_of(2, S_IFREG | 0o644, 1)), NOW).unwrap();
    assert_eq!(fs.open(1, 0, Ok(10)), Ok(OpenReply { fh: 0, flags: 0 }));
    assert_eq!(fs.open(2, 0x8002, Ok(11)), Ok(OpenReply { fh: 1, flags: 0x8002 }));
    assert_eq!(fs.open(1, 0x8401, Ok(12)), Ok(OpenReply { fh: 2, flags: 0x8401 }));
    assert_eq!(fs.open_file_count(), 3);
    assert_eq!(fs.read_request(0, 0, 0).unwrap().fd, 10);
    assert_eq!(fs.read_request(1, 0, 0).unwrap().fd, 11);
    assert_eq!(fs.read_request(2, 0, 0).unwrap().fd, 12);
}

#[test]
fn open_request_carries_path_cleared_flags_and_every_permission_bit() {
    let mut fs = HookFs::new(b"/mnt", b"/orig");
    fs.lookup_at(1, b"f", Ok(stat_of(42, S_IFREG | 0o644, 1)), NOW).unwrap();
    assert_eq!(
        fs.open_request(42, 0x8000 | 0o2000 | 1),
        Ok(OpenRequest { path: b"/orig/f".to_vec(), flags: 1, mode: 0o7777 })
    );
    assert_eq!(
        fs.open_request(42, (libc::O_RDWR | libc::O_NONBLOCK) as u32),
        Ok(OpenRequest {
            path: b"/orig/f".to_vec(),
            flags: libc::O_RDWR | libc::O_NONBLOCK,
            mode: 0o7777
        })
    );
    assert_eq!(fs.open_file_count(), 0);
}

#[test]
fn open_with_flags_that_have_no_native_form_fails_with_invalid_flags() {
    let mut fs = HookFs::new(b"/mnt", b"/orig");
    fs.lookup_at(1, b"f", Ok(stat_of(42, S_IFREG | 0o644, 1)), NOW).unwrap();
    assert_eq!(fs.open_request(42, 0x4000_0000), Err(FsError::InvalidFlags));
    assert_eq!(fs.open(42, 0x4000_0000, Ok(3)), Err(FsError::InvalidFlags));
    assert_eq!(fs.open_request_with(42, None), Err(FsError::InvalidFlags));
    assert_eq!(fs.open_with(42, 0, None, Ok(3)), Err(FsError::InvalidFlags));
    assert_eq!(fs.open_file_count(), 0);
    assert_eq!(fs.open_request(43, 0x4000_0000), Err(FsError::InvalidFlags));
    assert_eq!(fs.open_request_with(43, None), Err(FsError::InvalidFlags));
    assert_eq!(FsError::InvalidFlags.errno(), -1);
}

#[test]
fn open_of_unknown_inode_fails_with_unknown_inode() {
    let mut fs = HookFs::new(b"/mnt", b"/orig");
    assert_eq!(fs.open_request(42, 0), Err(FsError::UnknownInode));
    assert_eq!(fs.open_request_with(42, Some(0)), Err(FsError::UnknownInode));
    assert_eq!(fs.open(42, 0, Ok(3)), Err(FsError::UnknownInode));
    assert_eq!(fs.open_with(42, 0, Some(0), Ok(3)), Err(FsError::UnknownInode));
    assert_eq!(fs.open_with(42, 0, Some(0), Err(enoent())), Err(FsError::UnknownInode));
    assert_eq!(fs.open_file_count(), 0);
}

#[test]
fn open_translates_native_failure_and_appends_nothing() {
    let mut fs = HookFs::new(b"/mnt", b"/orig");
    fs.lookup_at(1, b"f", Ok(stat_of(42, S_IFREG | 0o644, 1)), NOW).unwrap();
    assert_eq!(
        fs.open(42, 0, Err(NativeError::Sys { errno: 13 })),
        Err(FsError::Native { errno: 13 })
    );
    assert_eq!(fs.open(42, 0, Err(NativeError::InvalidPath)), Err(FsError::Unknown));
    assert_eq!(fs.open_file_count(), 0);
    assert_eq!(fs.open(42, 0, Ok(3)), Ok(OpenReply { fh: 0, flags: 0 }));
}

#[test]
fn read_request_names_descriptor_offset_and_zeroed_buffer() {
    let mut fs = HookFs::new(b"/mnt", b"/orig");
    fs.lookup_at(1, b"f", Ok(stat_of(42, S_IFREG | 0o644, 1)), NOW).unwrap();
    fs.open(42, 0, Ok(9)).unwrap();
    assert_eq!(
        fs.read_request(0, 4096, 3),
        Ok(ReadRequest { fd: 9, offset: 4096, buffer: vec![0, 0, 0] })
    );
    assert_eq!(fs.read_request(0, -1, 0), Ok(ReadRequest { fd: 9, offset: -1, buffer: vec![] }));
    assert_eq!(fs.read_request(0, i64::MAX, 1).unwrap().offset, i64::MAX);
    assert_eq!(fs.read_request(0, 0, 131072).unwrap().buffer, vec![0u8; 131072]);
}

#[test]
fn read_through_a_handle_never_handed_out_fails_with_invalid_handle() {
    let mut fs = HookFs::new(b"/mnt", b"/orig");
    assert_eq!(fs.read_request(0, 0, 10), Err(FsError::InvalidHandle));
    assert_eq!(fs.read(0, vec![1, 2, 3], Ok(3)), Err(FsError::InvalidHandle));
    fs.lookup_at(1, b"f", Ok(stat_of(42, S_IFREG | 0o644, 1)), NOW).unwrap();
    fs.open(42, 0, Ok(9)).unwrap();
    assert_eq!(fs.read_request(1, 0, 10), Err(FsError::InvalidHandle));
    assert_eq!(fs.read_request(u64::MAX, 0, 10), Err(FsError::InvalidHandle));
    assert_eq!(fs.read_request(1 << 32, 0, 10), Err(FsError::InvalidHandle));
    assert_eq!(fs.read(1, vec![1, 2, 3], Ok(3)), Err(FsError::InvalidHandle));
    assert_eq!(fs.read(1, vec![1, 2, 3], Err(enoent())), Err(FsError::InvalidHandle));
    assert_eq!(FsError::InvalidHandle.errno(), -1);
}

#[test]
fn read_replies_with_exactly_the_bytes_read() {
    let mut fs = HookFs::new(b"/mnt", b"/orig");
    fs.lookup_at(1, b"f", Ok(stat_of(42, S_IFREG | 0o644, 1)), NOW).unwrap();
    fs.open(42, 0, Ok(9)).unwrap();
    assert_eq!(fs.read(0, vec![1, 2, 3, 4, 5], Ok(5)), Ok(vec![1, 2, 3, 4, 5]));
    assert_eq!(fs.read(0, vec![1, 2, 3, 0, 0], Ok(3)), Ok(vec![1, 2, 3]));
    assert_eq!(fs.read(0, vec![1, 2, 3, 0, 0], Ok(1)), Ok(vec![1]));
    assert_eq!(fs.read(0, vec![0, 0, 0, 0, 0], Ok(0)), Ok(vec![]));
    assert_eq!(fs.read(0, vec![], Ok(0)), Ok(vec![]));
    assert_eq!(fs.read(0, vec![7, 8], Ok(9)), Ok(vec![7, 8]));
}

#[test]
fn read_translates_native_failure() {
    let mut fs = HookFs::new(b"/mnt", b"/orig");
    fs.lookup_at(1, b"f", Ok(stat_of(42, S_IFREG | 0o644, 1)), NOW).unwrap();
    fs.open(42, 0, Ok(9)).unwrap();
    assert_eq!(
        fs.read(0, vec![0; 4], Err(NativeError::Sys { errno: libc::EINVAL })),
        Err(FsError::Native { errno: 22 })
    );
    assert_eq!(
        fs.read(0, vec![0; 4], Err(NativeError::Sys { errno: libc::EBADF })),
        Err(FsError::Native { errno: 9 })
    );
    assert_eq!(fs.read(0, vec![0; 4], Err(NativeError::UnsupportedOperation)), Err(FsError::Unknown));
}

#[test]
fn release_succeeds_again_and_again_and_for_any_handle() {
    let mut fs = HookFs::new(b"/mnt", b"/orig");
    assert_eq!(fs.release(1, 0, 0, 0, false), Ok(()));
    assert_eq!(fs.release(1, 12345, 0, 0, true), Ok(()));
    fs.lookup_at(1, b"f", Ok(stat_of(42, S_IFREG | 0o644, 1)), NOW).unwrap();
    fs.open(42, 0, Ok(9)).unwrap();
    assert_eq!(fs.release(42, 0, 0, 0, false), Ok(()));
    assert_eq!(fs.release(42, 0, 0, 0, false), Ok(()));
    assert_eq!(fs.release(42, u64::MAX, u32::MAX, u64::MAX, true), Ok(()));
    assert_eq!(fs.open_file_count(), 1);
    assert_eq!(fs.read_request(0, 0, 1).unwrap().fd, 9);
    assert_eq!(fs.open(42, 0, Ok(10)), Ok(OpenReply { fh: 1, flags: 0 }));
}

#[test]
fn opendir_and_releasedir_always_succeed_with_handle_zero() {
    let fs = HookFs::new(b"/mnt", b"/orig");
    assert_eq!(fs.opendir(1, 0), Ok(OpenReply { fh: 0, flags: 0 }));
    assert_eq!(fs.opendir(999, 0x8000 | 0o200000), Ok(OpenReply { fh: 0, flags: 0 }));
    assert_eq!(fs.releasedir(1, 0, 0), Ok(()));
    assert_eq!(fs.releasedir(999, 7, 3), Ok(()));
    assert_eq!(fs.open_file_count(), 0);
    assert_eq!(fs.readdir(1, 0, 0), FsError::NotSupported);
}

#[test]
fn statfs_is_fixed() {
    let fs = HookFs::new(b"/mnt", b"/orig");
    let fixed = StatfsReply {
        blocks: 0,
        bfree: 0,
        bavail: 0,
        files: 0,
        ffree: 0,
        bsize: 512,
        namelen: 255,
        frsize: 0,
    };
    assert_eq!(fs.statfs(1), Ok(fixed));
    assert_eq!(fs.statfs(42), Ok(fixed));
}

#[test]
fn operations_left_out_answer_not_supported() {
    let fs = HookFs::new(b"/mnt", b"/orig");
    let t = Some(Timestamp { sec: 1, nsec: 2 });
    let replies: Vec<FsError> = vec![
        fs.setattr(1, Some(0o644), Some(0), Some(0), Some(0), t, t, Some(0), t, t, t, Some(0)),
        fs.setattr(1, None, None, None, None, None, None, None, None, None, None, None),
        fs.readlink(1),
        fs.mknod(1, b"n", 0o644, 0),
        fs.mkdir(1, b"d", 0o755),
        fs.unlink(1, b"f"),
        fs.rmdir(1, b"d"),
        fs.symlink(1, b"l", b"/target"),
        fs.rename(1, b"a", 1, b"b"),
        fs.link(2, 1, b"hard"),
        fs.write(2, 0, 0, b"data", 0),
        fs.flush(2, 0, 0),
        fs.fsync(2, 0, true),
        fs.readdir(1, 0, 0),
        fs.fsyncdir(1, 0, false),
        fs.setxattr(2, b"user.k", b"v", 0, 0),
        fs.getxattr(2, b"user.k", 16),
        fs.listxattr(2, 16),
        fs.removexattr(2, b"user.k"),
        fs.access(2, 4),
        fs.create(1, b"new", 0o644, 0),
        fs.getlk(2, 0, 0, 0, 10, 0, 1),
        fs.setlk(2, 0, 0, 0, 10, 0, 1, false),
        fs.bmap(2, 512, 0),
    ];
    assert_eq!(replies.len(), 24);
    for reply in replies {
        assert_eq!(reply, FsError::NotSupported);
        assert_eq!(reply.errno(), libc::ENOSYS);
    }
}

#[test]
fn operations_left_out_change_nothing() {
    let mut fs = HookFs::new(b"/mnt", b"/orig");
    fs.lookup_at(1, b"f", Ok(stat_of(42, S_IFREG | 0o644, 1)), NOW).unwrap();
    fs.open(42, 0, Ok(9)).unwrap();
    assert_eq!(fs.write(42, 0, 0, b"data", 0), FsError::NotSupported);
    assert_eq!(fs.unlink(1, b"f"), FsError::NotSupported);
    assert_eq!(fs.rename(1, b"f", 1, b"g"), FsError::NotSupported);
    assert_eq!(fs.getattr_path(42), Ok(b"/orig/f".to_vec()));
    assert_eq!(fs.open_file_count(), 1);
}

#[test]
fn clone_is_a_filesystem_of_its_own() {
    let mut fs = HookFs::new(b"/mnt", b"/orig");
    fs.lookup_at(1, b"f", Ok(stat_of(42, S_IFREG | 0o644, 1)), NOW).unwrap();
    let mut copy = fs.clone();
    copy.lookup_at(1, b"g", Ok(stat_of(43, S_IFREG | 0o644, 1)), NOW).unwrap();
    copy.open(42, 0, Ok(4)).unwrap();
    assert!(copy.knows_inode(42));
    assert!(copy.knows_inode(43));
    assert!(!fs.knows_inode(43));
    assert_eq!(fs.open_file_count(), 0);
    assert_eq!(copy.original_path(), b"/orig");
}

#[test]
fn replies_are_stamped_with_a_reading_of_the_clock() {
    let mut fs = HookFs::new(b"/mnt", b"/orig");
    let stat = stat_of(42, S_IFREG | 0o644, 10);
    let entry = fs.lookup(1, b"f", Ok(stat)).unwrap();
    assert!(entry.ttl.sec > 1_500_000_000);
    assert!(entry.ttl.nsec >= 0 && entry.ttl.nsec < 1_000_000_000);
    assert_eq!(entry.attr, attr_of(42, FileType::RegularFile, 0o644, 10));
    assert_eq!(entry.generation, 0);
    let attrs = fs.getattr(42, Ok(stat)).unwrap();
    assert!(attrs.ttl.sec >= entry.ttl.sec);
    assert!(attrs.ttl.nsec >= 0 && attrs.ttl.nsec < 1_000_000_000);
    assert_eq!(attrs.attr, entry.attr);
    assert_eq!(fs.lookup(1, b"g", Err(enoent())), Err(FsError::Native { errno: 2 }));
    assert_eq!(fs.lookup(1, b"h", Ok(stat_of(1, 0, 0))), Err(FsError::UnsupportedFileType));
}
