use vstd::prelude::*;

use crate::driver::Driver;
use crate::types::Zoom;

verus! {

/// A core that forwards only valid zoom values to its driver.
#[derive(Debug)]
pub struct Core {
    driver: Driver,
}

impl Core {
    /// The zoom value its driver holds.
    pub closed spec fn zoom_value(&self) -> u32 {
        self.driver.zoom_value()
    }

    pub fn new(driver: Driver) -> (r: Self)
        ensures
            r.zoom_value() == driver.zoom_value(),
    {
        Self { driver }
    }

    /// Stores `zoom` in the driver when it is valid; an invalid value is ignored.
    pub fn set_zoom(&mut self, zoom: Zoom)
        ensures
            zoom.0 <= 100 ==> final(self).zoom_value() == zoom.0,
            zoom.0 > 100 ==> final(self).zoom_value() == old(self).zoom_value(),
    {
        if zoom.is_valid() {
            self.driver.set_zoom(zoom);
        }
    }

    /// Borrows the zoom value the driver holds.
    pub fn get_zoom(&self) -> (r: &Zoom)
        ensures
            r.0 == self.zoom_value(),
    {
        self.driver.get_zoom()
    }
}

} // verus!
