//! The check on a received control message that should carry one file
//! descriptor. The caller reads the header fields and supplies the values
//! the socket layer uses for them.
use vstd::prelude::*;

verus! {

/// Why a control message does not carry one file descriptor.
#[derive(Debug, Clone, Copy, PartialEq, Eq, Structural)]
pub enum FdCmsgError {
    /// Its level or type is not that of passed file descriptors.
    UnexpectedType,
    /// Its length is not that of one file descriptor.
    UnexpectedLength,
}

impl FdCmsgError {
    /// The text the error is reported with.
    pub fn message(&self) -> (s: &'static str)
        ensures
            *self == FdCmsgError::UnexpectedType ==> s@
                == "Unexpected file descriptor control message type"@,
            *self == FdCmsgError::UnexpectedLength ==> s@
                == "Unexpected control message length for file descriptor"@,
    {
        match self {
            FdCmsgError::UnexpectedType => "Unexpected file descriptor control message type",
            FdCmsgError::UnexpectedLength => "Unexpected control message length for file descriptor",
        }
    }
}

/// Accepts a control message header with level `level`, type `msg_type` and
/// length `len` exactly when the level and type are `want_level` and
/// `want_type` (the socket level and the rights type) and the length is
/// `want_len` (that of one descriptor); the type is checked first.
pub fn check_fd_cmsg_header(
    level: i32,
    msg_type: i32,
    len: usize,
    want_level: i32,
    want_type: i32,
    want_len: usize,
) -> (res: Result<(), FdCmsgError>)
    ensures
        (level != want_level || msg_type != want_type) ==> res == Err::<(), FdCmsgError>(
            FdCmsgError::UnexpectedType,
        ),
        (level == want_level && msg_type == want_type && len != want_len) ==> res == Err::<
            (),
            FdCmsgError,
        >(FdCmsgError::UnexpectedLength),
        (level == want_level && msg_type == want_type && len == want_len) ==> res is Ok,
{
    if level != want_level || msg_type != want_type {
        return Err(FdCmsgError::UnexpectedType);
    }
    if len != want_len {
        return Err(FdCmsgError::UnexpectedLength);
    }
    Ok(())
}

} // verus!
