use vstd::prelude::*;

use crate::types::Zoom;

verus! {

/// A device driver that holds the current zoom value.
#[derive(Debug)]
pub struct Driver {
    zoom: Zoom,
}

impl Driver {
    /// The stored zoom value.
    pub closed spec fn zoom_value(&self) -> u32 {
        self.zoom.0
    }

    pub fn new(zoom: Zoom) -> (r: Self)
        ensures
            r.zoom_value() == zoom.0,
    {
        Self { zoom }
    }

    /// Stores a zoom value as given.
    pub fn set_zoom(&mut self, zoom: Zoom)
        ensures
            final(self).zoom_value() == zoom.0,
    {
        self.zoom = zoom;
    }

    /// Borrows the stored zoom value.
    pub fn get_zoom(&self) -> (r: &Zoom)
        ensures
            r.0 == self.zoom_value(),
    {
        &self.zoom
    }
}

} // verus!
