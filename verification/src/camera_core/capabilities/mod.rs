mod focus;
mod info;
mod normalized;
mod zoom;

pub use focus::Focus;
pub use info::DeviceInfo;
pub use normalized::{is_normalized, normalized, out_of_range};
pub use zoom::Zoom;

use vstd::prelude::*;

verus! {

/// A device feature that is available through a registered core port.
#[derive(Debug, Clone, Copy, PartialEq, Eq, Structural)]
pub enum Capability {
    /// Normalized optical or digital zoom control.
    Zoom,
    /// Normalized focus control.
    Focus,
    /// Automatic focus control.
    AutoFocus,
    /// Human-readable device information.
    Info,
    /// Image-stabilization control.
    Stabilization,
}

} // verus!
