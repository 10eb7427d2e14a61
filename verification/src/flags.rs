//! Open flags: what is cleared before they reach the native layer, and
//! whether the native layer can express what is left.

use vstd::prelude::*;

verus! {

/// The append flag. The kernel has applied it to the offsets already, so it
/// must not be applied a second time.
pub const O_APPEND: u32 = 0o2000;

/// A bit that the kernel sets for its own use and that no native flag
/// stands for.
pub const KERNEL_RESERVED_FLAG: u32 = 0x8000;

/// The access mode with which files are opened: every permission bit. It
/// would matter only if the call created a file, which it never does.
pub const OPEN_MODE: u32 = 0o7777;

/// The flags of a request with the append flag and the reserved bit cleared.
pub open spec fn sanitized_flags(flags: u32) -> u32 {
    flags & !O_APPEND & !KERNEL_RESERVED_FLAG
}

/// The sanitized flags of a request in the signed form that the native layer
/// takes.
pub open spec fn native_flag_bits(flags: u32) -> i32 {
    sanitized_flags(flags) as i32
}

/// Clears the append flag and the reserved bit.
pub fn sanitize_open_flags(flags: u32) -> (cleared: u32)
    ensures
        cleared == sanitized_flags(flags),
{
    flags & !O_APPEND & !KERNEL_RESERVED_FLAG
}

/// Sanitizing clears the two bits and nothing else: neither is set
/// afterwards, every other bit is as it was, and flags that hold neither
/// pass unchanged.
pub proof fn lemma_sanitized_flags(flags: u32)
    ensures
        sanitized_flags(flags) & O_APPEND == 0,
        sanitized_flags(flags) & KERNEL_RESERVED_FLAG == 0,
        sanitized_flags(flags) | (flags & (O_APPEND | KERNEL_RESERVED_FLAG)) == flags,
        flags & (O_APPEND | KERNEL_RESERVED_FLAG) == 0 ==> sanitized_flags(flags) == flags,
        sanitized_flags(sanitized_flags(flags)) == sanitized_flags(flags),
{
    assert((flags & !0o2000u32 & !0x8000u32) & 0o2000u32 == 0) by (bit_vector);
    assert((flags & !0o2000u32 & !0x8000u32) & 0x8000u32 == 0) by (bit_vector);
    assert((flags & !0o2000u32 & !0x8000u32) | (flags & (0o2000u32 | 0x8000u32)) == flags)
        by (bit_vector);
    assert(flags & (0o2000u32 | 0x8000u32) == 0 ==> (flags & !0o2000u32 & !0x8000u32) == flags)
        by (bit_vector);
    assert((flags & !0o2000u32 & !0x8000u32) & !0o2000u32 & !0x8000u32 == (flags & !0o2000u32
        & !0x8000u32)) by (bit_vector);
}

/// What `nix::fcntl::OFlag::from_bits` followed by `bits()` gives for a set
/// of bits: the native flag set, read back as bits, or `None` where some bit
/// stands for no native flag. Which bits do is fixed by the platform's C
/// library.
pub uninterp spec fn oflag_from_bits(bits: i32) -> Option<i32>;

/// Calls `nix::fcntl::OFlag::from_bits` and reads the flag set back with
/// `bits()`. The call gives a flag set exactly when no bit outside the known
/// flags is set, and the set then holds the bits it was made from; the empty
/// set of bits is always accepted.
#[verifier::external_body]
pub(crate) fn native_oflag(bits: i32) -> (native: Option<i32>)
    ensures
        native == oflag_from_bits(bits),
        native matches Some(b) ==> b == bits,
        bits == 0 ==> native is Some,
{
    match nix::fcntl::OFlag::from_bits(bits) {
        Some(flags) => Some(flags.bits()),
        None => None,
    }
}

/// The native form of a request's open flags: sanitized, and then checked
/// against what the native layer can express.
pub fn native_open_flags(flags: u32) -> (native: Option<i32>)
    ensures
        native == oflag_from_bits(native_flag_bits(flags)),
        native matches Some(b) ==> b == native_flag_bits(flags),
        sanitized_flags(flags) == 0 ==> native == Some(0i32),
{
    let cleared = sanitize_open_flags(flags);
    native_oflag(cleared as i32)
}

} // verus!
