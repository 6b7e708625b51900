//! The unified error type's numeric codes and rendering.

use safe_ffi::errors::CoreError;
use safe_ffi::errors::DnsError;
use safe_ffi::errors::FfiError;
use safe_ffi::errors::NfsError;
use safe_ffi::errors::DNS_ERROR_START_RANGE;

#[test]
fn local_codes_distinct_and_decreasing() {
    let invalid_path = FfiError::InvalidPath.error_code();
    let path_not_found = FfiError::PathNotFound.error_code();
    let file_not_found = FfiError::FileNotFound.error_code();
    let unexpected = FfiError::Unexpected("oops".to_string()).error_code();

    assert_eq!(invalid_path, -1501);
    assert_eq!(path_not_found, -1502);
    assert_eq!(file_not_found, -1503);
    assert_eq!(unexpected, -1504);

    assert!(invalid_path > path_not_found);
    assert!(path_not_found > file_not_found);
    assert!(file_not_found > unexpected);

    assert!(invalid_path <= DNS_ERROR_START_RANGE - 500);
    assert!(unexpected <= DNS_ERROR_START_RANGE - 500);
}

#[test]
fn foreign_codes_delegate() {
    assert_eq!(FfiError::CoreError(CoreError::UnsuccessfulEncodeDecode).error_code(), -1);
    assert_eq!(FfiError::CoreError(CoreError::OperationAborted).error_code(), -3);
    assert_eq!(
        FfiError::NfsError(NfsError::DirectoryAlreadyExistsWithSameName).error_code(),
        -501
    );
    assert_eq!(FfiError::NfsError(NfsError::InvalidRangeSpecified).error_code(), -505);
    assert_eq!(FfiError::DnsError(DnsError::DnsRecordNotFound).error_code(), -1001);
    assert_eq!(FfiError::DnsError(DnsError::ServiceNotFound).error_code(), -1002);
}

#[test]
fn debug_rendering() {
    assert_eq!(
        FfiError::CoreError(CoreError::OperationAborted).debug_description(),
        "FfiError::CoreError -> OperationAborted"
    );
    assert_eq!(
        FfiError::NfsError(NfsError::FileNotFound).debug_description(),
        "FfiError::NfsError -> FileNotFound"
    );
    assert_eq!(
        FfiError::DnsError(DnsError::ServiceNotFound).debug_description(),
        "FfiError::DnsError -> ServiceNotFound"
    );
    assert_eq!(FfiError::InvalidPath.debug_description(), "FfiError::InvalidPath");
    assert_eq!(FfiError::PathNotFound.debug_description(), "FfiError::PathNotFound");
    assert_eq!(FfiError::FileNotFound.debug_description(), "FfiError::FileNotFound");
    assert_eq!(
        FfiError::Unexpected("what".to_string()).debug_description(),
        "FfiError::Unexpected::{what}"
    );
}
