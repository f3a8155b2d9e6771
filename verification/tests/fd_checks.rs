use nix::fcntl::{fcntl, open, FcntlArg, OFlag};
use nix::sys::stat::{fstat, Mode};
use nix::unistd::close;

use zero_copy::validate::{validate_raw_fd, Role, ValidationError};

/// Validates a live descriptor against a role, with the metadata the kernel
/// reports for it.
fn validate(fd: i32, role: Role) -> Result<i32, ValidationError> {
    let st = fstat(fd).unwrap();
    let flags = fcntl(fd, FcntlArg::F_GETFL).unwrap();
    validate_raw_fd(fd, role, st.st_mode, flags)
}

#[test]
fn check_readable_writable_file() {
    let td = tempfile::tempdir().unwrap();
    let fd = open(
        &td.path().join("both.txt"),
        OFlag::O_CREAT | OFlag::O_RDWR,
        Mode::from_bits_truncate(0o600),
    )
    .unwrap();

    validate(fd, Role::Readable).unwrap();
    validate(fd, Role::Writable).unwrap();
    close(fd).unwrap();
}

#[test]
fn check_only_writable() {
    let td = tempfile::tempdir().unwrap();
    let fd = open(
        &td.path().join("asdf.txt"),
        OFlag::O_CREAT | OFlag::O_EXCL | OFlag::O_WRONLY,
        Mode::from_bits_truncate(0o600),
    )
    .unwrap();

    validate(fd, Role::Writable).unwrap();
    assert!(validate(fd, Role::Readable).is_err());
    close(fd).unwrap();
}

#[test]
fn check_only_readable() {
    let td = tempfile::tempdir().unwrap();
    let p = td.path().join("asdf.txt");
    let wfd = open(&p, OFlag::O_CREAT | OFlag::O_WRONLY, Mode::from_bits_truncate(0o600)).unwrap();
    nix::unistd::write(wfd, b"wow!").unwrap();
    close(wfd).unwrap();

    let fd = open(&p, OFlag::O_RDONLY, Mode::empty()).unwrap();

    validate(fd, Role::Readable).unwrap();
    assert!(validate(fd, Role::Writable).is_err());
    close(fd).unwrap();
}

#[test]
fn check_no_append() {
    let td = tempfile::tempdir().unwrap();
    let fd = open(
        &td.path().join("asdf.txt"),
        OFlag::O_CREAT | OFlag::O_WRONLY | OFlag::O_APPEND,
        Mode::from_bits_truncate(0o600),
    )
    .unwrap();

    assert!(validate(fd, Role::Writable).is_err());
    assert!(validate(fd, Role::Readable).is_err());
    close(fd).unwrap();
}

#[test]
fn directory_rejected() {
    let td = tempfile::tempdir().unwrap();
    let fd = open(td.path(), OFlag::O_RDONLY, Mode::empty()).unwrap();

    assert_eq!(validate(fd, Role::Readable), Err(ValidationError::NotRegularFile));
    close(fd).unwrap();
}

#[test]
fn pipe_rejected() {
    let (r, w) = nix::unistd::pipe().unwrap();

    assert_eq!(validate(r, Role::Readable), Err(ValidationError::NotRegularFile));
    assert_eq!(validate(w, Role::Writable), Err(ValidationError::NotRegularFile));
    close(r).unwrap();
    close(w).unwrap();
}
