//! Attribute records, and the translation of native metadata into them.

use crate::native::{
    NativeStat, S_IFBLK, S_IFCHR, S_IFDIR, S_IFIFO, S_IFLNK, S_IFMT, S_IFREG, S_IFSOCK,
};
use vstd::prelude::*;

verus! {

/// Mask of the permission bits that an attribute record keeps.
pub const PERMISSION_MASK: u32 = 0o777;

/// The file types that an attribute record can express.
#[derive(Clone, Copy, Debug, PartialEq, Eq, Structural)]
pub enum FileType {
    /// Named pipe.
    NamedPipe,
    /// Character device.
    CharDevice,
    /// Block device.
    BlockDevice,
    /// Directory.
    Directory,
    /// Regular file.
    RegularFile,
    /// Symbolic link.
    Symlink,
    /// Unix domain socket.
    Socket,
}

/// A point in time, or a span of it: whole seconds and the nanoseconds
/// beyond them.
#[derive(Clone, Copy, Debug, PartialEq, Eq, Structural)]
pub struct Timestamp {
    /// Seconds.
    pub sec: i64,
    /// Nanoseconds beyond the seconds.
    pub nsec: i32,
}

/// The attributes of a file as the protocol carries them.
#[derive(Clone, Copy, Debug, PartialEq, Eq, Structural)]
pub struct FileAttr {
    /// Inode number.
    pub ino: u64,
    /// Size in bytes.
    pub size: u64,
    /// Size in blocks.
    pub blocks: u64,
    /// Time of last access.
    pub atime: Timestamp,
    /// Time of last modification.
    pub mtime: Timestamp,
    /// Time of last status change.
    pub ctime: Timestamp,
    /// Time of creation; always zero here.
    pub crtime: Timestamp,
    /// Type of the file.
    pub kind: FileType,
    /// Permission bits.
    pub perm: u16,
    /// Number of hard links.
    pub nlink: u32,
    /// Owner.
    pub uid: u32,
    /// Group.
    pub gid: u32,
    /// Device number.
    pub rdev: u32,
    /// Platform flags; always zero here.
    pub flags: u32,
}

/// The file type that the type bits of a mode stand for, if it is one that
/// an attribute record can express.
pub open spec fn file_type_of(mode: u32) -> Option<FileType> {
    let format = mode & S_IFMT;
    if format == S_IFBLK {
        Some(FileType::BlockDevice)
    } else if format == S_IFCHR {
        Some(FileType::CharDevice)
    } else if format == S_IFDIR {
        Some(FileType::Directory)
    } else if format == S_IFIFO {
        Some(FileType::NamedPipe)
    } else if format == S_IFLNK {
        Some(FileType::Symlink)
    } else if format == S_IFREG {
        Some(FileType::RegularFile)
    } else if format == S_IFSOCK {
        Some(FileType::Socket)
    } else {
        None
    }
}

/// The low 32 bits of an unsigned value.
pub open spec fn low_32_bits(v: u64) -> u32 {
    (v % 0x1_0000_0000) as u32
}

/// A signed count read as unsigned: itself where it is not negative, and
/// its two's complement otherwise.
pub open spec fn unsigned_64(v: i64) -> u64 {
    if v >= 0 {
        v as u64
    } else {
        (v + 0x1_0000_0000_0000_0000) as u64
    }
}

/// The low 32 bits of a signed value, read as signed. Nanoseconds within a
/// second, which lie below 1 000 000 000, come out unchanged.
pub open spec fn signed_32(v: i64) -> i32 {
    let low = v % 0x1_0000_0000;
    if low < 0x8000_0000 {
        low as i32
    } else {
        (low - 0x1_0000_0000) as i32
    }
}

/// The permission bits of a mode: its low nine bits.
pub open spec fn permission_bits(mode: u32) -> u16 {
    (mode & PERMISSION_MASK) as u16
}

/// The attribute record for native metadata, or `None` where the file type
/// is not one that a record can express.
///
/// The device number and the link count are cut to their low 32 bits and the
/// mode to its permission bits. Size and block count are read as unsigned,
/// and the nanoseconds as 32-bit. Inode, owner, group and the seconds pass
/// through unchanged. Creation time and platform flags are zero.
pub open spec fn attr_of(stat: NativeStat) -> Option<FileAttr> {
    match file_type_of(stat.st_mode) {
        Some(kind) => Some(
            FileAttr {
                ino: stat.st_ino,
                size: unsigned_64(stat.st_size),
                blocks: unsigned_64(stat.st_blocks),
                atime: Timestamp { sec: stat.st_atime, nsec: signed_32(stat.st_atime_nsec) },
                mtime: Timestamp { sec: stat.st_mtime, nsec: signed_32(stat.st_mtime_nsec) },
                ctime: Timestamp { sec: stat.st_ctime, nsec: signed_32(stat.st_ctime_nsec) },
                crtime: Timestamp { sec: 0, nsec: 0 },
                kind,
                perm: permission_bits(stat.st_mode),
                nlink: low_32_bits(stat.st_nlink),
                uid: stat.st_uid,
                gid: stat.st_gid,
                rdev: low_32_bits(stat.st_rdev),
                flags: 0,
            },
        ),
        None => None,
    }
}

/// Reads a signed count as unsigned.
fn to_unsigned_64(v: i64) -> (r: u64)
    ensures
        r == unsigned_64(v),
{
    assert(v >= 0 ==> v as u64 == v) by (bit_vector);
    assert(v < 0 ==> v as u64 == v + 0x1_0000_0000_0000_0000) by (bit_vector);
    v as u64
}

/// Cuts an unsigned value to its low 32 bits.
fn to_low_32_bits(v: u64) -> (r: u32)
    ensures
        r == low_32_bits(v),
{
    assert(v as u32 == v % 0x1_0000_0000) by (bit_vector);
    v as u32
}

/// Cuts a signed value to its low 32 bits, read as signed.
fn to_signed_32(v: i64) -> (r: i32)
    ensures
        r == signed_32(v),
{
    assert(v as i32 == signed_32(v)) by (bit_vector);
    v as i32
}

/// The file type that the type bits of a mode stand for.
pub fn file_type(mode: u32) -> (kind: Option<FileType>)
    ensures
        kind == file_type_of(mode),
{
    let format = mode & S_IFMT;
    if format == S_IFBLK {
        Some(FileType::BlockDevice)
    } else if format == S_IFCHR {
        Some(FileType::CharDevice)
    } else if format == S_IFDIR {
        Some(FileType::Directory)
    } else if format == S_IFIFO {
        Some(FileType::NamedPipe)
    } else if format == S_IFLNK {
        Some(FileType::Symlink)
    } else if format == S_IFREG {
        Some(FileType::RegularFile)
    } else if format == S_IFSOCK {
        Some(FileType::Socket)
    } else {
        None
    }
}

/// Translates native metadata into an attribute record. The translation
/// succeeds exactly for the seven file types that a record can express.
pub fn convert_libc_stat_to_fuse_stat(stat: NativeStat) -> (attr: Option<FileAttr>)
    ensures
        attr == attr_of(stat),
        attr is Some <==> file_type_of(stat.st_mode) is Some,
{
    let kind = match file_type(stat.st_mode) {
        Some(kind) => kind,
        None => return None,
    };
    let mode = stat.st_mode;
    assert(mode & 0o777 <= 0o777) by (bit_vector);
    Some(
        FileAttr {
            ino: stat.st_ino,
            size: to_unsigned_64(stat.st_size),
            blocks: to_unsigned_64(stat.st_blocks),
            atime: Timestamp { sec: stat.st_atime, nsec: to_signed_32(stat.st_atime_nsec) },
            mtime: Timestamp { sec: stat.st_mtime, nsec: to_signed_32(stat.st_mtime_nsec) },
            ctime: Timestamp { sec: stat.st_ctime, nsec: to_signed_32(stat.st_ctime_nsec) },
            crtime: Timestamp { sec: 0, nsec: 0 },
            kind,
            perm: (mode & PERMISSION_MASK) as u16,
            nlink: to_low_32_bits(stat.st_nlink),
            uid: stat.st_uid,
            gid: stat.st_gid,
            rdev: to_low_32_bits(stat.st_rdev),
            flags: 0,
        },
    )
}

/// Values that the operating system reports for a file pass through the
/// translation unchanged: a size and a block count that are not negative,
/// nanoseconds within their second, and a device number and a link count
/// that fit 32 bits.
pub proof fn lemma_native_values_pass_unchanged(stat: NativeStat)
    requires
        file_type_of(stat.st_mode) is Some,
    ensures
        ({
            let attr = attr_of(stat)->Some_0;
            &&& attr.ino == stat.st_ino
            &&& attr.uid == stat.st_uid
            &&& attr.gid == stat.st_gid
            &&& attr.kind == file_type_of(stat.st_mode)->Some_0
            &&& attr.perm <= 0o777
            &&& stat.st_size >= 0 ==> attr.size == stat.st_size
            &&& stat.st_blocks >= 0 ==> attr.blocks == stat.st_blocks
            &&& 0 <= stat.st_atime_nsec < 1_000_000_000 ==> attr.atime.nsec == stat.st_atime_nsec
            &&& 0 <= stat.st_mtime_nsec < 1_000_000_000 ==> attr.mtime.nsec == stat.st_mtime_nsec
            &&& 0 <= stat.st_ctime_nsec < 1_000_000_000 ==> attr.ctime.nsec == stat.st_ctime_nsec
            &&& stat.st_nlink <= u32::MAX ==> attr.nlink == stat.st_nlink
            &&& stat.st_rdev <= u32::MAX ==> attr.rdev == stat.st_rdev
        }),
{
    let mode = stat.st_mode;
    assert(mode & 0o777 <= 0o777) by (bit_vector);
}

/// The type bits of a mode decide the file type, and each of the seven
/// patterns stands for its own type.
pub proof fn lemma_file_type_by_format(mode: u32)
    ensures
        file_type_of(mode) == Some(FileType::RegularFile) <==> mode & S_IFMT == S_IFREG,
        file_type_of(mode) == Some(FileType::Directory) <==> mode & S_IFMT == S_IFDIR,
        file_type_of(mode) == Some(FileType::Symlink) <==> mode & S_IFMT == S_IFLNK,
        file_type_of(mode) == Some(FileType::NamedPipe) <==> mode & S_IFMT == S_IFIFO,
        file_type_of(mode) == Some(FileType::CharDevice) <==> mode & S_IFMT == S_IFCHR,
        file_type_of(mode) == Some(FileType::BlockDevice) <==> mode & S_IFMT == S_IFBLK,
        file_type_of(mode) == Some(FileType::Socket) <==> mode & S_IFMT == S_IFSOCK,
        file_type_of(mode) is None <==> {
            &&& mode & S_IFMT != S_IFREG
            &&& mode & S_IFMT != S_IFDIR
            &&& mode & S_IFMT != S_IFLNK
            &&& mode & S_IFMT != S_IFIFO
            &&& mode & S_IFMT != S_IFCHR
            &&& mode & S_IFMT != S_IFBLK
            &&& mode & S_IFMT != S_IFSOCK
        },
{
}

} // verus!
