use zero_copy::flags::EBADF;
use zero_copy::probe::{
    classify_sentinel_errno, probe_step, ProbeStep, SyscallAvailability, INVALID_FD,
};

/// Runs the probe as the engine prescribes it: ask what to do, and if the
/// platform is to be probed, issue the sentinel copy-range call on two
/// invalid descriptors and classify its error number.
fn run_probe(platform_has_syscall: bool) -> SyscallAvailability {
    match probe_step(platform_has_syscall) {
        ProbeStep::Resolved(verdict) => verdict,
        ProbeStep::RunSentinel => {
            let err = nix::fcntl::copy_file_range(INVALID_FD, None, INVALID_FD, None, 1)
                .expect_err("the sentinel descriptors must be refused");
            classify_sentinel_errno(err as i32)
        }
    }
}

#[test]
fn check_copy_file_range() {
    assert!(matches!(run_probe(true), SyscallAvailability::Available));
}

#[test]
fn sentinel_errno_classification() {
    assert_eq!(classify_sentinel_errno(EBADF), SyscallAvailability::Available);
    let enosys: i32 = 38;
    assert_eq!(
        classify_sentinel_errno(enosys),
        SyscallAvailability::FailedProbe(enosys)
    );
}

#[test]
fn missing_platform_skips_sentinel() {
    assert_eq!(
        probe_step(false),
        ProbeStep::Resolved(SyscallAvailability::NotSupportedOnPlatform)
    );
    assert_eq!(
        run_probe(false),
        SyscallAvailability::NotSupportedOnPlatform
    );
}
