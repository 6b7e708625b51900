//! The unified error type of the boundary layer.
//!
//! Errors from the three collaborating subsystems (the network connection
//! layer, the directory/file layer and the name-service layer) are wrapped
//! into one flat type together with four local error kinds.  Every error
//! converts to a negative 32-bit code; each subsystem owns a contiguous,
//! disjoint range of codes, and the local range starts 500 below the
//! name-service range.

use vstd::prelude::*;

verus! {

use vstd::string::StringExecFns;

/// First (highest) code of the connection subsystem's range.
pub const CORE_ERROR_START_RANGE: i32 = -1;
/// First (highest) code of the directory/file subsystem's range.
pub const NFS_ERROR_START_RANGE: i32 = CORE_ERROR_START_RANGE - 500;
/// First (highest) code of the name-service subsystem's range.
pub const DNS_ERROR_START_RANGE: i32 = NFS_ERROR_START_RANGE - 500;
/// First (highest) code of this layer's own range.
pub const FFI_ERROR_START_RANGE: i32 = DNS_ERROR_START_RANGE - 500;

/// Errors reported by the connection subsystem.
#[derive(Clone, Copy, Debug, PartialEq, Eq, Structural)]
pub enum CoreError {
    /// A value could not be encoded or decoded for the network.
    UnsuccessfulEncodeDecode,
    /// The network returned data of an unexpected shape.
    ReceivedUnexpectedData,
    /// An operation was aborted before it completed.
    OperationAborted,
}

impl CoreError {
    /// The subsystem's own numeric code for this error.
    pub open spec fn spec_code(self) -> int {
        match self {
            CoreError::UnsuccessfulEncodeDecode => CORE_ERROR_START_RANGE as int,
            CoreError::ReceivedUnexpectedData => CORE_ERROR_START_RANGE - 1,
            CoreError::OperationAborted => CORE_ERROR_START_RANGE - 2,
        }
    }

    /// Converts this error to its numeric code.
    pub fn code(&self) -> (r: i32)
        ensures
            r as int == self.spec_code(),
    {
        match *self {
            CoreError::UnsuccessfulEncodeDecode => CORE_ERROR_START_RANGE,
            CoreError::ReceivedUnexpectedData => CORE_ERROR_START_RANGE - 1,
            CoreError::OperationAborted => CORE_ERROR_START_RANGE - 2,
        }
    }
}

/// Errors reported by the directory/file subsystem.
#[derive(Clone, Copy, Debug, PartialEq, Eq, Structural)]
pub enum NfsError {
    /// A directory with the same name already exists.
    DirectoryAlreadyExistsWithSameName,
    /// The requested directory was not found.
    DirectoryNotFound,
    /// A file with the same name already exists.
    FileAlreadyExistsWithSameName,
    /// The requested file was not found.
    FileNotFound,
    /// A read range fell outside the file.
    InvalidRangeSpecified,
}

impl NfsError {
    /// The subsystem's own numeric code for this error.
    pub open spec fn spec_code(self) -> int {
        match self {
            NfsError::DirectoryAlreadyExistsWithSameName => NFS_ERROR_START_RANGE as int,
            NfsError::DirectoryNotFound => NFS_ERROR_START_RANGE - 1,
            NfsError::FileAlreadyExistsWithSameName => NFS_ERROR_START_RANGE - 2,
            NfsError::FileNotFound => NFS_ERROR_START_RANGE - 3,
            NfsError::InvalidRangeSpecified => NFS_ERROR_START_RANGE - 4,
        }
    }

    /// Converts this error to its numeric code.
    pub fn code(&self) -> (r: i32)
        ensures
            r as int == self.spec_code(),
    {
        match *self {
            NfsError::DirectoryAlreadyExistsWithSameName => NFS_ERROR_START_RANGE,
            NfsError::DirectoryNotFound => NFS_ERROR_START_RANGE - 1,
            NfsError::FileAlreadyExistsWithSameName => NFS_ERROR_START_RANGE - 2,
            NfsError::FileNotFound => NFS_ERROR_START_RANGE - 3,
            NfsError::InvalidRangeSpecified => NFS_ERROR_START_RANGE - 4,
        }
    }
}

/// Errors reported by the name-service subsystem.
#[derive(Clone, Copy, Debug, PartialEq, Eq, Structural)]
pub enum DnsError {
    /// No record is registered under the requested long name.
    DnsRecordNotFound,
    /// The long name exists but carries no such service.
    ServiceNotFound,
}

impl DnsError {
    /// The subsystem's own numeric code for this error.
    pub open spec fn spec_code(self) -> int {
        match self {
            DnsError::DnsRecordNotFound => DNS_ERROR_START_RANGE as int,
            DnsError::ServiceNotFound => DNS_ERROR_START_RANGE - 1,
        }
    }

    /// Converts this error to its numeric code.
    pub fn code(&self) -> (r: i32)
        ensures
            r as int == self.spec_code(),
    {
        match *self {
            DnsError::DnsRecordNotFound => DNS_ERROR_START_RANGE,
            DnsError::ServiceNotFound => DNS_ERROR_START_RANGE - 1,
        }
    }
}

/// Errors during boundary operations.
#[derive(Debug, PartialEq)]
pub enum FfiError {
    /// Errors from the connection subsystem.
    CoreError(CoreError),
    /// Errors from the directory/file subsystem.
    NfsError(NfsError),
    /// Errors from the name-service subsystem.
    DnsError(DnsError),
    /// Invalid path given.
    InvalidPath,
    /// Given path does not exist for the client.
    PathNotFound,
    /// Given file does not exist for the client.
    FileNotFound,
    /// Unexpected or some programming error, with a message.
    Unexpected(String),
}

impl FfiError {
    /// The flat numeric code of this error: foreign variants delegate to the
    /// wrapped subsystem's own code, local variants count down from
    /// `FFI_ERROR_START_RANGE` in declaration order.
    pub open spec fn spec_error_code(&self) -> int {
        match self {
            FfiError::CoreError(e) => e.spec_code(),
            FfiError::NfsError(e) => e.spec_code(),
            FfiError::DnsError(e) => e.spec_code(),
            FfiError::InvalidPath => FFI_ERROR_START_RANGE as int,
            FfiError::PathNotFound => FFI_ERROR_START_RANGE - 1,
            FfiError::FileNotFound => FFI_ERROR_START_RANGE - 2,
            FfiError::Unexpected(_) => FFI_ERROR_START_RANGE - 3,
        }
    }

    /// Converts this error to its flat numeric code.
    pub fn error_code(&self) -> (r: i32)
        ensures
            r as int == self.spec_error_code(),
    {
        match self {
            FfiError::CoreError(e) => e.code(),
            FfiError::NfsError(e) => e.code(),
            FfiError::DnsError(e) => e.code(),
            FfiError::InvalidPath => FFI_ERROR_START_RANGE,
            FfiError::PathNotFound => FFI_ERROR_START_RANGE - 1,
            FfiError::FileNotFound => FFI_ERROR_START_RANGE - 2,
            FfiError::Unexpected(_) => FFI_ERROR_START_RANGE - 3,
        }
    }

    /// Builds the catch-all error from a message.
    pub fn unexpected(message: &str) -> (r: FfiError)
        ensures
            r matches FfiError::Unexpected(m) && m@ == message@,
    {
        FfiError::Unexpected(String::from_str(message))
    }
}

impl CoreError {
    /// The tag this error renders as.
    pub open spec fn spec_debug_tag(self) -> Seq<char> {
        match self {
            CoreError::UnsuccessfulEncodeDecode => "UnsuccessfulEncodeDecode"@,
            CoreError::ReceivedUnexpectedData => "ReceivedUnexpectedData"@,
            CoreError::OperationAborted => "OperationAborted"@,
        }
    }

    /// The tag this error renders as.
    pub fn debug_tag(&self) -> (r: &'static str)
        ensures
            r@ == self.spec_debug_tag(),
    {
        match *self {
            CoreError::UnsuccessfulEncodeDecode => "UnsuccessfulEncodeDecode",
            CoreError::ReceivedUnexpectedData => "ReceivedUnexpectedData",
            CoreError::OperationAborted => "OperationAborted",
        }
    }
}

impl NfsError {
    /// The tag this error renders as.
    pub open spec fn spec_debug_tag(self) -> Seq<char> {
        match self {
            NfsError::DirectoryAlreadyExistsWithSameName => "DirectoryAlreadyExistsWithSameName"@,
            NfsError::DirectoryNotFound => "DirectoryNotFound"@,
            NfsError::FileAlreadyExistsWithSameName => "FileAlreadyExistsWithSameName"@,
            NfsError::FileNotFound => "FileNotFound"@,
            NfsError::InvalidRangeSpecified => "InvalidRangeSpecified"@,
        }
    }

    /// The tag this error renders as.
    pub fn debug_tag(&self) -> (r: &'static str)
        ensures
            r@ == self.spec_debug_tag(),
    {
        match *self {
            NfsError::DirectoryAlreadyExistsWithSameName => "DirectoryAlreadyExistsWithSameName",
            NfsError::DirectoryNotFound => "DirectoryNotFound",
            NfsError::FileAlreadyExistsWithSameName => "FileAlreadyExistsWithSameName",
            NfsError::FileNotFound => "FileNotFound",
            NfsError::InvalidRangeSpecified => "InvalidRangeSpecified",
        }
    }
}

impl DnsError {
    /// The tag this error renders as.
    pub open spec fn spec_debug_tag(self) -> Seq<char> {
        match self {
            DnsError::DnsRecordNotFound => "DnsRecordNotFound"@,
            DnsError::ServiceNotFound => "ServiceNotFound"@,
        }
    }

    /// The tag this error renders as.
    pub fn debug_tag(&self) -> (r: &'static str)
        ensures
            r@ == self.spec_debug_tag(),
    {
        match *self {
            DnsError::DnsRecordNotFound => "DnsRecordNotFound",
            DnsError::ServiceNotFound => "ServiceNotFound",
        }
    }
}

impl FfiError {
    /// The human-readable rendering of this error: the variant's tag, with
    /// the wrapped subsystem error's tag or the carried message after it.
    pub open spec fn spec_debug_description(&self) -> Seq<char> {
        match self {
            FfiError::CoreError(e) => "FfiError::CoreError -> "@ + e.spec_debug_tag(),
            FfiError::NfsError(e) => "FfiError::NfsError -> "@ + e.spec_debug_tag(),
            FfiError::DnsError(e) => "FfiError::DnsError -> "@ + e.spec_debug_tag(),
            FfiError::InvalidPath => "FfiError::InvalidPath"@,
            FfiError::PathNotFound => "FfiError::PathNotFound"@,
            FfiError::FileNotFound => "FfiError::FileNotFound"@,
            FfiError::Unexpected(m) => "FfiError::Unexpected::{"@ + m@ + "}"@,
        }
    }

    /// Renders this error for humans, as `spec_debug_description` states.
    pub fn debug_description(&self) -> (r: String)
        ensures
            r@ == self.spec_debug_description(),
    {
        match self {
            FfiError::CoreError(e) => {
                let mut out = String::from_str("FfiError::CoreError -> ");
                out.append(e.debug_tag());
                out
            },
            FfiError::NfsError(e) => {
                let mut out = String::from_str("FfiError::NfsError -> ");
                out.append(e.debug_tag());
                out
            },
            FfiError::DnsError(e) => {
                let mut out = String::from_str("FfiError::DnsError -> ");
                out.append(e.debug_tag());
                out
            },
            FfiError::InvalidPath => String::from_str("FfiError::InvalidPath"),
            FfiError::PathNotFound => String::from_str("FfiError::PathNotFound"),
            FfiError::FileNotFound => String::from_str("FfiError::FileNotFound"),
            FfiError::Unexpected(m) => {
                let mut out = String::from_str("FfiError::Unexpected::{");
                out.append(m.as_str());
                out.append("}");
                proof {
                    assert(out@ =~= self.spec_debug_description());
                }
                out
            },
        }
    }
}

impl From<CoreError> for FfiError {
    fn from(error: CoreError) -> (r: FfiError) {
        FfiError::CoreError(error)
    }
}

impl vstd::std_specs::convert::FromSpecImpl<CoreError> for FfiError {
    open spec fn obeys_from_spec() -> bool {
        true
    }

    open spec fn from_spec(t: CoreError) -> FfiError {
        FfiError::CoreError(t)
    }
}

impl From<NfsError> for FfiError {
    fn from(error: NfsError) -> (r: FfiError) {
        FfiError::NfsError(error)
    }
}

impl vstd::std_specs::convert::FromSpecImpl<NfsError> for FfiError {
    open spec fn obeys_from_spec() -> bool {
        true
    }

    open spec fn from_spec(t: NfsError) -> FfiError {
        FfiError::NfsError(t)
    }
}

impl From<DnsError> for FfiError {
    fn from(error: DnsError) -> (r: FfiError) {
        FfiError::DnsError(error)
    }
}

impl vstd::std_specs::convert::FromSpecImpl<DnsError> for FfiError {
    open spec fn obeys_from_spec() -> bool {
        true
    }

    open spec fn from_spec(t: DnsError) -> FfiError {
        FfiError::DnsError(t)
    }
}

/// The four local error codes are pairwise distinct, strictly decreasing from
/// `InvalidPath` through `Unexpected`, and all lie at or below the
/// name-service range's start minus 500, hence strictly below every foreign
/// code.
pub proof fn lemma_local_codes_distinct(message: String)
    ensures
        FfiError::InvalidPath.spec_error_code() == DNS_ERROR_START_RANGE - 500,
        FfiError::PathNotFound.spec_error_code() == DNS_ERROR_START_RANGE - 501,
        FfiError::FileNotFound.spec_error_code() == DNS_ERROR_START_RANGE - 502,
        FfiError::Unexpected(message).spec_error_code() == DNS_ERROR_START_RANGE - 503,
        FfiError::InvalidPath.spec_error_code() > FfiError::PathNotFound.spec_error_code(),
        FfiError::PathNotFound.spec_error_code() > FfiError::FileNotFound.spec_error_code(),
        FfiError::FileNotFound.spec_error_code() > FfiError::Unexpected(
            message,
        ).spec_error_code(),
{
}

/// Every wrapped foreign error keeps its code inside its own subsystem's
/// range, the three foreign ranges are pairwise disjoint, and every local
/// code lies strictly below all of them.
pub proof fn lemma_error_ranges_disjoint(c: CoreError, n: NfsError, d: DnsError, f: FfiError)
    ensures
        NFS_ERROR_START_RANGE < c.spec_code() <= CORE_ERROR_START_RANGE,
        DNS_ERROR_START_RANGE < n.spec_code() <= NFS_ERROR_START_RANGE,
        FFI_ERROR_START_RANGE < d.spec_code() <= DNS_ERROR_START_RANGE,
        FfiError::CoreError(c).spec_error_code() == c.spec_code(),
        FfiError::NfsError(n).spec_error_code() == n.spec_code(),
        FfiError::DnsError(d).spec_error_code() == d.spec_code(),
        (f matches FfiError::InvalidPath || f matches FfiError::PathNotFound
            || f matches FfiError::FileNotFound || f matches FfiError::Unexpected(_))
            ==> f.spec_error_code() <= FFI_ERROR_START_RANGE,
{
}

} // verus!
