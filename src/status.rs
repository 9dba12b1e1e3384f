use vstd::prelude::*;

verus! {

/// Native status code of success.
pub const S_OK: i32 = 0;

/// Native code for a path or entry that does not exist.
pub const ERROR_FILE_NOT_FOUND: i32 = 2;

/// Native code for an output buffer that is too small.
pub const ERROR_INSUFFICIENT_BUFFER: i32 = 122;

/// Native code for an operation that completes later.
pub const ERROR_IO_PENDING: i32 = 997;

/// Native code of a failure with no more specific meaning.
pub const GENERIC_FAILURE: i32 = -1;

/// The failures that a policy or the bridge itself can report.
#[derive(Clone, Copy, Debug, PartialEq, Eq, Structural)]
pub enum IoError {
    /// The path or the entry does not exist.
    NotFound,
    /// The driver must retry the operation later.
    WouldBlock,
    /// The output buffer is too small.
    InsufficientBuffer,
    /// A request named an enumeration session that was never started, or
    /// that has ended.
    InvalidSession,
    /// An operating-system error code, forwarded as it is.
    RawOs(i32),
    /// Any other failure.
    Other,
}

/// The native status code that stands for `e`.
pub open spec fn status_of(e: IoError) -> i32 {
    match e {
        IoError::RawOs(code) => code,
        IoError::WouldBlock => ERROR_IO_PENDING,
        IoError::NotFound => ERROR_FILE_NOT_FOUND,
        IoError::InsufficientBuffer => ERROR_INSUFFICIENT_BUFFER,
        IoError::InvalidSession => GENERIC_FAILURE,
        IoError::Other => GENERIC_FAILURE,
    }
}

/// The native status code of a failure: an operating-system code passes
/// through unchanged, the three known kinds get their own code, and every
/// other failure becomes the generic one.
pub fn io_error_to_raw(e: IoError) -> (r: i32)
    ensures
        r == status_of(e),
{
    match e {
        IoError::RawOs(code) => code,
        IoError::WouldBlock => ERROR_IO_PENDING,
        IoError::NotFound => ERROR_FILE_NOT_FOUND,
        IoError::InsufficientBuffer => ERROR_INSUFFICIENT_BUFFER,
        IoError::InvalidSession => GENERIC_FAILURE,
        IoError::Other => GENERIC_FAILURE,
    }
}

/// The native status code of the outcome of a policy call.
pub open spec fn result_status(r: Result<(), IoError>) -> i32 {
    match r {
        Ok(()) => S_OK,
        Err(e) => status_of(e),
    }
}

/// The native status code of the result of a policy call.
pub fn result_to_raw(r: Result<(), IoError>) -> (code: i32)
    ensures
        code == result_status(r),
{
    match r {
        Ok(()) => S_OK,
        Err(e) => io_error_to_raw(e),
    }
}

} // verus!
