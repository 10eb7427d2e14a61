//! A passthrough filesystem core: the tables and rules by which requests of
//! the kernel's filesystem protocol are answered from an underlying
//! directory tree.
//!
//! The crate decides, and leaves the file system calls to its caller. For
//! every operation of the protocol it says which native call is to be made
//! and, given what that call reported, which reply is owed and how the
//! tables change. The one thing it reads from the system itself is the clock.

pub mod attr;
pub mod clock;
pub mod errors;
pub mod flags;
pub mod fuse_device;
pub mod guarantees;
pub mod hookfs;
pub mod model;
pub mod native;
pub mod paths;
pub mod reply;
pub mod unsupported;

pub use crate::attr::{FileAttr, FileType, Timestamp};
pub use crate::errors::FsError;
pub use crate::hookfs::HookFs;
pub use crate::native::{NativeError, NativeStat};
