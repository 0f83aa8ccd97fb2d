use vstd::prelude::*;

verus! {

/// A raw zoom value as the driver stores it; valid values lie in `0..=100`.
#[derive(Debug)]
pub struct Zoom(pub u32);

impl Zoom {
    /// Whether the value lies in `0..=100`.
    pub fn is_valid(&self) -> (r: bool)
        ensures
            r == (self.0 <= 100),
    {
        self.0 <= 100
    }
}

} // verus!
