use vstd::prelude::*;

verus! {

/// Human-readable device information returned by the core.
#[derive(Debug, Clone, PartialEq, Eq)]
pub struct DeviceInfo(String);

impl View for DeviceInfo {
    type V = Seq<char>;

    closed spec fn view(&self) -> Seq<char> {
        self.0@
    }
}

impl DeviceInfo {
    /// Wraps device information supplied by an adapter.
    pub fn new(info: &str) -> (r: Self)
        ensures
            r@ == info@,
    {
        DeviceInfo(String::from_str(info))
    }

    /// Borrows the device information text.
    pub fn as_str(&self) -> (r: &str)
        ensures
            r@ == self@,
    {
        self.0.as_str()
    }
}

} // verus!
