use vstd::prelude::*;

use crate::camera_core::zoom_core::Core;
use crate::types::Zoom;

verus! {

/// The entry point that drives a [`Core`].
#[derive(Debug)]
pub struct Controller {
    core: Core,
}

impl Controller {
    /// The zoom value its core holds.
    pub closed spec fn zoom_value(&self) -> u32 {
        self.core.zoom_value()
    }

    pub fn new(core: Core) -> (r: Self)
        ensures
            r.zoom_value() == core.zoom_value(),
    {
        Self { core }
    }

    /// Forwards a zoom value to the core, which keeps it only when valid.
    pub fn set_zoom(&mut self, zoom: Zoom)
        ensures
            zoom.0 <= 100 ==> final(self).zoom_value() == zoom.0,
            zoom.0 > 100 ==> final(self).zoom_value() == old(self).zoom_value(),
    {
        self.core.set_zoom(zoom);
    }

    /// Borrows the zoom value the core holds.
    pub fn get_zoom(&self) -> (r: &Zoom)
        ensures
            r.0 == self.zoom_value(),
    {
        self.core.get_zoom()
    }
}

} // verus!
