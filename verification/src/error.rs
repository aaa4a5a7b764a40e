use vstd::prelude::*;

verus! {

/// Status values that the runtime reports for an operation.
#[derive(Clone, Copy, Debug, PartialEq, Eq, Structural)]
pub enum OakStatus {
    Unspecified,
    ErrBadHandle,
    ErrInvalidArgs,
    ErrChannelClosed,
    ErrBufferTooSmall,
    ErrHandleSpaceTooSmall,
    ErrOutOfRange,
    ErrInternal,
    ErrTerminated,
    ErrChannelEmpty,
    ErrPermissionDenied,
}

/// Errors of encoding and decoding messages.
#[derive(Clone, Copy, Debug, PartialEq, Eq, Structural)]
pub enum OakError {
    /// A status reported for the operation.
    OakStatus(OakStatus),
}

impl From<OakStatus> for OakError {
    fn from(status: OakStatus) -> (e: OakError) {
        OakError::OakStatus(status)
    }
}

impl vstd::std_specs::convert::FromSpecImpl<OakStatus> for OakError {
    open spec fn obeys_from_spec() -> bool {
        true
    }

    open spec fn from_spec(status: OakStatus) -> OakError {
        OakError::OakStatus(status)
    }
}

/// The error that every malformed message is answered with.
pub open spec fn invalid_args() -> OakError {
    OakError::OakStatus(OakStatus::ErrInvalidArgs)
}

/// Builds the error that every malformed message is answered with.
pub fn invalid_args_error() -> (e: OakError)
    ensures
        e == invalid_args(),
{
    OakError::from(OakStatus::ErrInvalidArgs)
}

} // verus!
