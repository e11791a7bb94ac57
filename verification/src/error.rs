//! The ways in which a scan or a recovery fails.

use vstd::prelude::*;

verus! {

#[derive(Clone, Copy, Debug, PartialEq, Eq, Structural)]
pub enum RecoveryError {
    /// Insufficient privileges, or no backup right.
    PermissionDenied,
    /// The volume or the file that was to be opened does not exist.
    NotFound,
    /// The boot sector does not carry the NTFS mark.
    NotNtfs,
    /// The volume is encrypted and not unlocked.
    VolumeLocked,
    /// A read or a seek failed.
    Io,
    /// The system handed back another record than the one asked for.
    FreedSlot,
    /// The record lies beyond what the Master File Table covers.
    OutOfRange,
    /// A record, an attribute or a run list is malformed.
    ParseError,
    /// The validator refused the bytes that a recovery produced.
    CorruptOutput,
    /// The operator stopped the work.
    Cancelled,
    /// What was asked for is not known to the library or to the system.
    Unsupported,
}

/// The system's code for a file that does not exist.
pub const OS_FILE_NOT_FOUND: u32 = 2;

/// The system's code for a path that does not exist.
pub const OS_PATH_NOT_FOUND: u32 = 3;

/// The system's code for access that is denied.
pub const OS_ACCESS_DENIED: u32 = 5;

/// The system's code for a privilege that could not be assigned.
pub const OS_NOT_ALL_ASSIGNED: u32 = 1300;

/// The system's code for a privilege that the caller does not hold.
pub const OS_PRIVILEGE_NOT_HELD: u32 = 1314;

/// The system's code for a request that the device does not know.
pub const OS_INVALID_FUNCTION: u32 = 1;

/// The system's code for a request that is not supported.
pub const OS_NOT_SUPPORTED: u32 = 50;

/// The way in which an operation on a volume failed, by the code that the
/// system gave: missing privileges are told apart from a volume that does
/// not exist and from a request that the system does not support; every
/// other code is a failure of the read itself.
pub open spec fn error_of_code(code: u32) -> RecoveryError {
    if code == OS_ACCESS_DENIED || code == OS_NOT_ALL_ASSIGNED || code == OS_PRIVILEGE_NOT_HELD {
        RecoveryError::PermissionDenied
    } else if code == OS_FILE_NOT_FOUND || code == OS_PATH_NOT_FOUND {
        RecoveryError::NotFound
    } else if code == OS_INVALID_FUNCTION || code == OS_NOT_SUPPORTED {
        RecoveryError::Unsupported
    } else {
        RecoveryError::Io
    }
}

/// Tells in which way an operation on a volume failed.
pub fn classify_os_error(code: u32) -> (r: RecoveryError)
    ensures
        r == error_of_code(code),
{
    if code == OS_ACCESS_DENIED || code == OS_NOT_ALL_ASSIGNED || code == OS_PRIVILEGE_NOT_HELD {
        RecoveryError::PermissionDenied
    } else if code == OS_FILE_NOT_FOUND || code == OS_PATH_NOT_FOUND {
        RecoveryError::NotFound
    } else if code == OS_INVALID_FUNCTION || code == OS_NOT_SUPPORTED {
        RecoveryError::Unsupported
    } else {
        RecoveryError::Io
    }
}

} // verus!
