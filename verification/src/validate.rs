//! Descriptor capability validation.
//!
//! A descriptor enters the engine only after it is proved, once, to name a
//! regular file whose open mode fits the role it is to serve: a readable
//! side must be open for reading, a writable side for writing and not in
//! append mode (append mode would make explicit-offset bookkeeping diverge
//! from the actual write position).  The embedding runtime queries the
//! kernel for the stat mode word and the status flags; everything decided
//! from them is here.

use vstd::prelude::*;

use crate::flags::{access_mode_of, has_append, is_regular_mode, O_RDONLY, O_RDWR, O_WRONLY};
use crate::flags::{access_mode, O_APPEND, S_IFMT, S_IFREG};

verus! {

/// Capability a descriptor is validated against.
#[derive(Copy, Clone, Debug, PartialEq, Eq, Hash, PartialOrd, Ord, Structural)]
pub enum Role {
    /// The descriptor is to be read from.
    Readable,
    /// The descriptor is to be written to.
    Writable,
}

/// Why validation refused a descriptor.
#[derive(Copy, Clone, Debug, PartialEq, Eq, Structural)]
pub enum ValidationError {
    /// The descriptor does not name a regular file.
    NotRegularFile,
    /// The descriptor's access mode lies outside the role's allowed set.
    WrongAccessMode,
    /// The descriptor is in append mode though it is to be written.
    AppendNotAllowed,
}

impl Role {
    /// The access modes under which a descriptor can serve this role.
    pub open spec fn mode_allowed(self, m: i32) -> bool {
        match self {
            Role::Readable => m == O_RDONLY || m == O_RDWR,
            Role::Writable => m == O_WRONLY || m == O_RDWR,
        }
    }

    /// Whether this role forbids append mode: only a writable side cares
    /// where the kernel actually puts each write.
    pub open spec fn forbids_append(self) -> bool {
        self == Role::Writable
    }
}

/// What validating status flags against a role yields: the access mode is
/// checked first, the append bit second.
pub open spec fn flags_validation(role: Role, flags: i32) -> Result<(), ValidationError> {
    if !role.mode_allowed(access_mode_of(flags)) {
        Err(ValidationError::WrongAccessMode)
    } else if role.forbids_append() && has_append(flags) {
        Err(ValidationError::AppendNotAllowed)
    } else {
        Ok(())
    }
}

/// What validating a descriptor's full metadata against a role yields: the
/// file type is checked before the status flags.
pub open spec fn validation(role: Role, st_mode: u32, flags: i32) -> Result<(), ValidationError> {
    if !is_regular_mode(st_mode) {
        Err(ValidationError::NotRegularFile)
    } else {
        flags_validation(role, flags)
    }
}

impl Role {
    /// The access modes the role accepts, as the syscall interface encodes
    /// them.
    pub fn allowed_modes(&self) -> (r: Vec<i32>)
        ensures
            r@ == match *self {
                Role::Readable => seq![O_RDONLY, O_RDWR],
                Role::Writable => seq![O_WRONLY, O_RDWR],
            },
    {
        let r = match self {
            Role::Readable => vec![O_RDONLY, O_RDWR],
            Role::Writable => vec![O_WRONLY, O_RDWR],
        };
        proof {
            assert(r@ =~= match *self {
                Role::Readable => seq![O_RDONLY, O_RDWR],
                Role::Writable => seq![O_WRONLY, O_RDWR],
            });
        }
        r
    }

    /// Refuses append mode wherever the role forbids it.
    pub fn check_append(&self, flags: i32) -> (r: Result<(), ValidationError>)
        ensures
            r is Ok <==> !(self.forbids_append() && has_append(flags)),
            r is Err ==> r == Err::<(), ValidationError>(ValidationError::AppendNotAllowed),
    {
        if let Role::Writable = self {
            if flags & O_APPEND != 0 {
                return Err(ValidationError::AppendNotAllowed);
            }
        }
        Ok(())
    }

    /// The message with which a descriptor failing the role's access-mode
    /// check is refused.
    pub fn errmsg(&self) -> (r: &'static str)
        ensures
            *self == Role::Readable ==> r@ == "Fd is not readable!"@,
            *self == Role::Writable ==> r@ == "Fd is not writable!"@,
    {
        match self {
            Role::Readable => "Fd is not readable!",
            Role::Writable => "Fd is not writable!",
        }
    }

    /// Validates a descriptor's status flags against this role: the access
    /// mode must lie in the allowed set, and a writable descriptor must not
    /// be in append mode.
    pub fn validate_flags(&self, flags: i32) -> (r: Result<(), ValidationError>)
        ensures
            r == flags_validation(*self, flags),
    {
        let m = access_mode(flags);
        let allowed = match self {
            Role::Readable => m == O_RDONLY || m == O_RDWR,
            Role::Writable => m == O_WRONLY || m == O_RDWR,
        };
        if !allowed {
            return Err(ValidationError::WrongAccessMode);
        }
        self.check_append(flags)?;
        Ok(())
    }
}

/// Accepts a stat mode word only if it names a regular file: pipes, sockets,
/// devices and directories are refused, since the copy-range call requires
/// regular files at both ends.
pub fn check_regular_file(st_mode: u32) -> (r: Result<(), ValidationError>)
    ensures
        r is Ok <==> is_regular_mode(st_mode),
        r is Err ==> r == Err::<(), ValidationError>(ValidationError::NotRegularFile),
{
    if st_mode & S_IFMT == S_IFREG {
        Ok(())
    } else {
        Err(ValidationError::NotRegularFile)
    }
}

/// Validates a raw descriptor number against a role, given the metadata the
/// kernel reports for it: the stat mode word and the status flags.  Returns
/// the descriptor number itself on success, so a caller can thread it into a
/// validated handle.
pub fn validate_raw_fd(fd: i32, role: Role, st_mode: u32, flags: i32) -> (r: Result<
    i32,
    ValidationError,
>)
    ensures
        r is Ok <==> validation(role, st_mode, flags) is Ok,
        r matches Ok(v) ==> v == fd,
        r matches Err(e) ==> validation(role, st_mode, flags) == Err::<(), ValidationError>(e),
{
    check_regular_file(st_mode)?;
    role.validate_flags(flags)?;
    Ok(fd)
}

/// Law: a descriptor opened write-only never validates for the readable
/// role, and one opened read-only never validates for the writable role;
/// when the descriptor is otherwise in order, the refusal names the access
/// mode.
pub proof fn lemma_access_mode_mismatch_rejected(st_mode: u32, flags: i32)
    ensures
        access_mode_of(flags) == O_WRONLY ==> validation(Role::Readable, st_mode, flags) is Err,
        access_mode_of(flags) == O_RDONLY ==> validation(Role::Writable, st_mode, flags) is Err,
        is_regular_mode(st_mode) && access_mode_of(flags) == O_WRONLY ==> validation(
            Role::Readable,
            st_mode,
            flags,
        ) == Err::<(), ValidationError>(ValidationError::WrongAccessMode),
        is_regular_mode(st_mode) && access_mode_of(flags) == O_RDONLY ==> validation(
            Role::Writable,
            st_mode,
            flags,
        ) == Err::<(), ValidationError>(ValidationError::WrongAccessMode),
{
}

/// Law: a descriptor in append mode never validates for the writable role,
/// whatever its access mode; when it is a regular file with write
/// capability, the refusal names the append bit.
pub proof fn lemma_append_rejected_for_writable(st_mode: u32, flags: i32)
    requires
        has_append(flags),
    ensures
        validation(Role::Writable, st_mode, flags) is Err,
        is_regular_mode(st_mode) && Role::Writable.mode_allowed(access_mode_of(flags))
            ==> validation(Role::Writable, st_mode, flags) == Err::<(), ValidationError>(
            ValidationError::AppendNotAllowed,
        ),
{
}

} // verus!
