//! The error kinds of the control plane and the status code of each.

use vstd::prelude::*;

verus! {

/// Why a request cannot be answered with success.
#[derive(Copy, Clone, Debug, PartialEq, Eq, Structural)]
pub enum ApiError {
    /// No processor kind goes by the requested name.
    UnknownProcessorName,
    /// No processor is registered under the requested id.
    UnknownProcessorId,
    /// The text given as an id denotes none, or none was given.
    InvalidId,
    /// The destination exists but has no data inbox: it is a source.
    WrongKind,
    /// The command was sent and no reply arrived.
    ProcessorUnreachable,
    /// The cancellation signal has fired: no processor answers any more.
    Cancelled,
    /// The processor is Errored and could not do what was asked.
    TransformFailure,
    /// A file or a socket failed.
    IoFailure,
}

/// The HTTP status code that stands for success.
pub const STATUS_OK: u16 = 200;

impl ApiError {
    /// The HTTP status code under which the error surfaces.
    pub open spec fn code(self) -> u16 {
        match self {
            ApiError::UnknownProcessorName => 400,
            ApiError::InvalidId => 400,
            ApiError::UnknownProcessorId => 404,
            ApiError::WrongKind => 404,
            ApiError::Cancelled => 503,
            ApiError::ProcessorUnreachable => 500,
            ApiError::TransformFailure => 500,
            ApiError::IoFailure => 500,
        }
    }

    /// The HTTP status code under which the error surfaces. No error
    /// surfaces as success.
    pub fn status_code(&self) -> (r: u16)
        ensures
            r == self.code(),
            r != STATUS_OK,
    {
        match self {
            ApiError::UnknownProcessorName => 400,
            ApiError::InvalidId => 400,
            ApiError::UnknownProcessorId => 404,
            ApiError::WrongKind => 404,
            ApiError::Cancelled => 503,
            ApiError::ProcessorUnreachable => 500,
            ApiError::TransformFailure => 500,
            ApiError::IoFailure => 500,
        }
    }
}

} // verus!
