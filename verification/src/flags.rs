//! Constants of the Linux descriptor interface that validation reads, with
//! the spec-level readings the checks are proved against.
//!
//! A descriptor's status flags carry its access mode in the bits selected by
//! [`O_ACCMODE`]; a stat mode word carries the file type in the bits selected
//! by [`S_IFMT`].

use vstd::prelude::*;

verus! {

/// Mask selecting the access-mode bits of a descriptor's status flags.
pub const O_ACCMODE: i32 = 0o3;

/// Access mode: open for reading only.
pub const O_RDONLY: i32 = 0o0;

/// Access mode: open for writing only.
pub const O_WRONLY: i32 = 0o1;

/// Access mode: open for reading and writing.
pub const O_RDWR: i32 = 0o2;

/// Status flag: every write goes to the end of the file, wherever any
/// explicit offset says it should go.
pub const O_APPEND: i32 = 0o2000;

/// Mask selecting the file-type bits of a stat mode word.
pub const S_IFMT: u32 = 0o170000;

/// File type: regular, filesystem-backed file.
pub const S_IFREG: u32 = 0o100000;

/// Error number with which the kernel refuses a bad file descriptor.
pub const EBADF: i32 = 9;

/// The access-mode bits of a status-flag word.
pub open spec fn access_mode_of(flags: i32) -> i32 {
    flags & O_ACCMODE
}

/// Whether a stat mode word names a regular file.
pub open spec fn is_regular_mode(st_mode: u32) -> bool {
    st_mode & S_IFMT == S_IFREG
}

/// Whether a status-flag word has the append bit set.
pub open spec fn has_append(flags: i32) -> bool {
    flags & O_APPEND != 0
}

/// The access-mode bits of a status-flag word, as executable code.
pub fn access_mode(flags: i32) -> (r: i32)
    ensures
        r == access_mode_of(flags),
{
    flags & O_ACCMODE
}

} // verus!
