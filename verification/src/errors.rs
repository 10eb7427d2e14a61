//! Translation of native failures into the error codes of the protocol.

use crate::native::NativeError;
use vstd::prelude::*;

verus! {

/// Error number sent for an operation that this filesystem does not implement.
pub const ENOSYS: i32 = 38;

/// The one value reserved on the wire for a failure without an error number
/// of its own.
pub const UNKNOWN_ERRNO: i32 = -1;

/// Why a request is answered with an error.
#[derive(Clone, Copy, Debug, PartialEq, Eq, Structural)]
pub enum FsError {
    /// A native call failed with a recognized error number, which is passed on.
    Native { errno: i32 },
    /// A native call failed without a recognizable error number.
    Unknown,
    /// The file is of a type that an attribute record cannot express.
    UnsupportedFileType,
    /// The open flags cannot be expressed to the native layer.
    InvalidFlags,
    /// The inode was never handed out by a lookup.
    UnknownInode,
    /// The handle was never handed out by an open.
    InvalidHandle,
    /// The operation is not implemented.
    NotSupported,
}

/// An error number is recognized when it is positive, as every error number
/// of the operating system is.
pub open spec fn recognized_errno(errno: i32) -> bool {
    errno > 0
}

/// The protocol error for a native failure: a recognized error number is
/// passed on unchanged, and every other failure is `Unknown`.
pub open spec fn translated(err: NativeError) -> FsError {
    match err.spec_as_errno() {
        Some(errno) if recognized_errno(errno) => FsError::Native { errno },
        _ => FsError::Unknown,
    }
}

/// Translates a native failure into the error of the protocol.
pub fn translate_error(err: NativeError) -> (e: FsError)
    ensures
        e == translated(err),
{
    match err.as_errno() {
        Some(errno) => {
            if errno > 0 {
                FsError::Native { errno }
            } else {
                FsError::Unknown
            }
        },
        None => FsError::Unknown,
    }
}

impl FsError {
    /// The number that stands for this error on the wire.
    pub open spec fn spec_errno(self) -> i32 {
        match self {
            FsError::Native { errno } => errno,
            FsError::NotSupported => ENOSYS,
            _ => UNKNOWN_ERRNO,
        }
    }

    /// The number that stands for this error on the wire: the native error
    /// number where there is one, `ENOSYS` for an operation that is not
    /// implemented, and the reserved value for every other kind.
    #[verifier::when_used_as_spec(spec_errno)]
    pub fn errno(self) -> (code: i32)
        ensures
            code == self.spec_errno(),
    {
        match self {
            FsError::Native { errno } => errno,
            FsError::NotSupported => ENOSYS,
            _ => UNKNOWN_ERRNO,
        }
    }
}

/// A translated native failure goes out under the error number it came in
/// with when that number is recognized, and under the reserved value
/// otherwise.
pub proof fn lemma_translation_keeps_recognized_errno(err: NativeError)
    ensures
        translated(err).spec_errno() == match err.spec_as_errno() {
            Some(errno) if recognized_errno(errno) => errno,
            _ => UNKNOWN_ERRNO,
        },
        translated(err) is Native || translated(err) is Unknown,
{
}

} // verus!
