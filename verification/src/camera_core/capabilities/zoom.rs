use vstd::prelude::*;

use crate::camera_core::error::DomainError;
use super::normalized::{is_normalized, normalized, out_of_range};

verus! {

/// A normalized zoom value in the inclusive range `0..=100`.
#[derive(Debug, Clone, Copy, PartialEq, Eq)]
pub struct Zoom(u8);

impl View for Zoom {
    type V = u8;

    closed spec fn view(&self) -> u8 {
        self.0
    }
}

impl Zoom {
    #[verifier::type_invariant]
    spec fn is_valid(self) -> bool {
        self.0 <= 100
    }

    /// The minimum normalized zoom value.
    pub fn minimum() -> (r: Self)
        ensures
            r@ == 0,
    {
        Zoom(0)
    }

    /// The maximum normalized zoom value.
    pub fn maximum() -> (r: Self)
        ensures
            r@ == 100,
    {
        Zoom(100)
    }

    /// Validates and constructs a normalized zoom value.
    pub fn new(value: i64) -> (r: Result<Self, DomainError>)
        ensures
            match r {
                Ok(z) => is_normalized(value as int) && z@ == value,
                Err(e) => !is_normalized(value as int) && e@ == out_of_range("zoom"@, value as int),
            },
    {
        let v = normalized("zoom", value)?;
        Ok(Zoom(v))
    }

    /// Returns the normalized value.
    pub fn value(self) -> (r: u8)
        ensures
            r == self@,
            is_normalized(r as int),
    {
        proof { use_type_invariant(&self); }
        self.0
    }
}

} // verus!
