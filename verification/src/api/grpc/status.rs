use vstd::prelude::*;

use crate::camera_core::error::{DomainError, DomainErrorView};

verus! {

/// The gRPC status codes that core errors map to.
#[derive(Debug, Clone, Copy, PartialEq, Eq, Structural)]
pub enum StatusCode {
    InvalidArgument,
    FailedPrecondition,
    Unimplemented,
    Internal,
    Unavailable,
}

/// The canonical gRPC number of a status code.
pub open spec fn status_number(code: StatusCode) -> i32 {
    match code {
        StatusCode::InvalidArgument => 3,
        StatusCode::FailedPrecondition => 9,
        StatusCode::Unimplemented => 12,
        StatusCode::Internal => 13,
        StatusCode::Unavailable => 14,
    }
}

/// The status code each kind of core error is answered with.
pub open spec fn code_of_error(e: DomainErrorView) -> StatusCode {
    match e {
        DomainErrorView::InvalidArgument { .. } => StatusCode::InvalidArgument,
        DomainErrorView::UnsupportedCapability(_) => StatusCode::Unimplemented,
        DomainErrorView::NotRunning => StatusCode::FailedPrecondition,
        DomainErrorView::DeviceUnavailable(_) => StatusCode::Unavailable,
        DomainErrorView::Device(_) => StatusCode::Internal,
    }
}

impl StatusCode {
    /// The canonical gRPC number of this code.
    pub fn number(self) -> (r: i32)
        ensures
            r == status_number(self),
    {
        match self {
            StatusCode::InvalidArgument => 3,
            StatusCode::FailedPrecondition => 9,
            StatusCode::Unimplemented => 12,
            StatusCode::Internal => 13,
            StatusCode::Unavailable => 14,
        }
    }
}

/// Maps a core error to the gRPC status code it is answered with; the status
/// message is the error's [`DomainError::message`].
pub fn status_code(error: &DomainError) -> (r: StatusCode)
    ensures
        r == code_of_error(error@),
{
    match error {
        DomainError::InvalidArgument { .. } => StatusCode::InvalidArgument,
        DomainError::UnsupportedCapability(_) => StatusCode::Unimplemented,
        DomainError::NotRunning => StatusCode::FailedPrecondition,
        DomainError::DeviceUnavailable(_) => StatusCode::Unavailable,
        DomainError::Device(_) => StatusCode::Internal,
    }
}

/// Law: different kinds of core error are answered with different status codes,
/// and every code is a distinct canonical gRPC number.
pub proof fn status_codes_tell_errors_apart(a: DomainErrorView, b: DomainErrorView)
    ensures
        code_of_error(a) == code_of_error(b) <==> {
            ||| (a is InvalidArgument && b is InvalidArgument)
            ||| (a is UnsupportedCapability && b is UnsupportedCapability)
            ||| (a is NotRunning && b is NotRunning)
            ||| (a is DeviceUnavailable && b is DeviceUnavailable)
            ||| (a is Device && b is Device)
        },
        status_number(code_of_error(a)) == status_number(code_of_error(b))
            <==> code_of_error(a) == code_of_error(b),
{
}

} // verus!
