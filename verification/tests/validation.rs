use zero_copy::flags::{O_APPEND, O_RDONLY, O_RDWR, O_WRONLY, S_IFREG};
use zero_copy::validate::{check_regular_file, validate_raw_fd, Role, ValidationError};

const S_IFDIR: u32 = 0o040000;
const S_IFIFO: u32 = 0o010000;

#[test]
fn allowed_modes_per_role() {
    assert_eq!(Role::Readable.allowed_modes(), vec![O_RDONLY, O_RDWR]);
    assert_eq!(Role::Writable.allowed_modes(), vec![O_WRONLY, O_RDWR]);
}

#[test]
fn errmsg_per_role() {
    assert_eq!(Role::Readable.errmsg(), "Fd is not readable!");
    assert_eq!(Role::Writable.errmsg(), "Fd is not writable!");
}

#[test]
fn regular_file_modes_accepted() {
    assert_eq!(check_regular_file(S_IFREG | 0o644), Ok(()));
    assert_eq!(check_regular_file(S_IFDIR | 0o755), Err(ValidationError::NotRegularFile));
    assert_eq!(check_regular_file(S_IFIFO | 0o600), Err(ValidationError::NotRegularFile));
}

#[test]
fn write_only_rejected_for_readable() {
    assert_eq!(
        Role::Readable.validate_flags(O_WRONLY),
        Err(ValidationError::WrongAccessMode)
    );
    assert_eq!(Role::Readable.validate_flags(O_RDONLY), Ok(()));
    assert_eq!(Role::Readable.validate_flags(O_RDWR), Ok(()));
}

#[test]
fn read_only_rejected_for_writable() {
    assert_eq!(
        Role::Writable.validate_flags(O_RDONLY),
        Err(ValidationError::WrongAccessMode)
    );
    assert_eq!(Role::Writable.validate_flags(O_WRONLY), Ok(()));
    assert_eq!(Role::Writable.validate_flags(O_RDWR), Ok(()));
}

#[test]
fn append_rejected_for_writable_only() {
    assert_eq!(
        Role::Writable.validate_flags(O_WRONLY | O_APPEND),
        Err(ValidationError::AppendNotAllowed)
    );
    assert_eq!(
        Role::Writable.validate_flags(O_RDWR | O_APPEND),
        Err(ValidationError::AppendNotAllowed)
    );
    assert_eq!(Role::Readable.validate_flags(O_RDWR | O_APPEND), Ok(()));
    assert_eq!(Role::Readable.check_append(O_RDWR | O_APPEND), Ok(()));
    assert_eq!(
        Role::Writable.check_append(O_RDWR | O_APPEND),
        Err(ValidationError::AppendNotAllowed)
    );
}

#[test]
fn file_type_checked_before_flags() {
    assert_eq!(
        validate_raw_fd(5, Role::Writable, S_IFDIR, O_RDONLY),
        Err(ValidationError::NotRegularFile)
    );
    assert_eq!(
        validate_raw_fd(5, Role::Writable, S_IFREG, O_RDONLY),
        Err(ValidationError::WrongAccessMode)
    );
    assert_eq!(
        validate_raw_fd(5, Role::Writable, S_IFREG, O_WRONLY | O_APPEND),
        Err(ValidationError::AppendNotAllowed)
    );
    assert_eq!(validate_raw_fd(5, Role::Writable, S_IFREG, O_WRONLY), Ok(5));
}
