use vstd::prelude::*;

use crate::camera_core::error::{DomainError, DomainErrorView};
use crate::camera_core::text::{decimal_string, decimal_text};

verus! {

/// Whether an integer lies in the normalized range `0..=100`.
pub open spec fn is_normalized(value: int) -> bool {
    0 <= value <= 100
}

/// The error that rejects `value` for the normalized field `field`.
pub open spec fn out_of_range(field: Seq<char>, value: int) -> DomainErrorView {
    DomainErrorView::InvalidArgument {
        field: field,
        value: decimal_text(value),
        expected: "0..=100"@,
    }
}

/// Validates `value` for the normalized field `field`.
pub fn normalized(field: &'static str, value: i64) -> (r: Result<u8, DomainError>)
    ensures
        match r {
            Ok(v) => is_normalized(value as int) && v == value,
            Err(e) => !is_normalized(value as int) && e@ == out_of_range(field@, value as int),
        },
{
    if 0 <= value && value <= 100 {
        Ok(value as u8)
    } else {
        Err(DomainError::InvalidArgument { field, value: decimal_string(value), expected: "0..=100" })
    }
}

} // verus!
