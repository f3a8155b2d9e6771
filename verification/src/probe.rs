//! Classification of the one-time syscall-availability probe.
//!
//! Whether the running kernel implements the copy-range call is found out by
//! deliberately invoking it on two sentinel descriptor numbers with length
//! one: a kernel that implements the call refuses the bad descriptors before
//! looking at anything else, so the error number tells an implemented call
//! from a missing one.  The embedding runtime issues that sentinel call at
//! most once per process and caches the verdict; which call to issue, and
//! what each error number means, is decided here.

use vstd::prelude::*;

use crate::flags::EBADF;

verus! {

/// Sentinel descriptor number handed to the probe call; no open descriptor
/// ever carries it.
pub const INVALID_FD: i32 = -1;

/// Whether the running kernel offers the copy-range syscall.
#[derive(Copy, Clone, Debug, PartialEq, Eq, Structural)]
pub enum SyscallAvailability {
    /// The syscall exists and can be invoked.
    Available,
    /// The sentinel call came back with an error number that neither names
    /// the bad descriptors nor anything this engine understands; carried
    /// verbatim, and treated conservatively as unavailable.
    FailedProbe(i32),
    /// The platform exposes no such syscall at all.
    NotSupportedOnPlatform,
}

/// What a probe is to do next.
#[derive(Copy, Clone, Debug, PartialEq, Eq, Structural)]
pub enum ProbeStep {
    /// Invoke the copy-range call on two sentinel descriptors with length
    /// one, and hand the error number to [`classify_sentinel_errno`].
    RunSentinel,
    /// The verdict is already known without touching the kernel.
    Resolved(SyscallAvailability),
}

/// First probing decision: only a platform that exposes the syscall is
/// probed; on any other the verdict is immediate and no sentinel call is
/// ever issued.
pub fn probe_step(platform_has_syscall: bool) -> (r: ProbeStep)
    ensures
        platform_has_syscall ==> r == ProbeStep::RunSentinel,
        !platform_has_syscall ==> r == ProbeStep::Resolved(
            SyscallAvailability::NotSupportedOnPlatform,
        ),
{
    if platform_has_syscall {
        ProbeStep::RunSentinel
    } else {
        ProbeStep::Resolved(SyscallAvailability::NotSupportedOnPlatform)
    }
}

/// Reads the sentinel call's error number: a kernel that implements the call
/// refuses the sentinel descriptors as bad, so that error number means the
/// call is available; any other answer is a failed probe, carried verbatim.
pub fn classify_sentinel_errno(errno: i32) -> (r: SyscallAvailability)
    ensures
        errno == EBADF ==> r == SyscallAvailability::Available,
        errno != EBADF ==> r == SyscallAvailability::FailedProbe(errno),
{
    if errno == EBADF {
        SyscallAvailability::Available
    } else {
        SyscallAvailability::FailedProbe(errno)
    }
}

} // verus!
