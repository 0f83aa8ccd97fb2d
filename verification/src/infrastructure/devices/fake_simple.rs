use vstd::prelude::*;

use crate::camera_core::capabilities::{DeviceInfo, Focus, Zoom};
use crate::camera_core::error::{DomainError, DomainErrorView};

verus! {

/// The state of a simple fake camera: whether it is open, and its normalized
/// zoom and focus values.
pub struct FakeCameraView {
    pub open: bool,
    pub zoom: u8,
    pub focus: u8,
}

/// The text the simple fake camera reports as its device information.
pub open spec fn fake_camera_info() -> Seq<char> {
    "Fake Simple Camera"@
}

/// The error of a capability call on a closed fake camera.
pub open spec fn closed_camera_error() -> DomainErrorView {
    DomainErrorView::DeviceUnavailable("simple fake camera is closed"@)
}

impl FakeCameraView {
    /// The state after a zoom write: the new zoom while open, unchanged while closed.
    pub open spec fn with_zoom(self, zoom: u8) -> FakeCameraView {
        if self.open { FakeCameraView { zoom, ..self } } else { self }
    }

    /// The state after a focus write: the new focus while open, unchanged while closed.
    pub open spec fn with_focus(self, focus: u8) -> FakeCameraView {
        if self.open { FakeCameraView { focus, ..self } } else { self }
    }

    /// The zoom a read returns, or `None` when the camera refuses because it is closed.
    pub open spec fn zoom_reading(self) -> Option<u8> {
        if self.open { Some(self.zoom) } else { None }
    }

    /// The focus a read returns, or `None` when the camera refuses because it is closed.
    pub open spec fn focus_reading(self) -> Option<u8> {
        if self.open { Some(self.focus) } else { None }
    }
}

/// A per-instance camera adapter backed only by memory.
///
/// Every instance starts closed with minimum zoom and focus; capability calls
/// are refused while it is closed.
#[derive(Debug)]
pub struct SimpleFakeCamera {
    open: bool,
    zoom: Zoom,
    focus: Focus,
}

impl View for SimpleFakeCamera {
    type V = FakeCameraView;

    closed spec fn view(&self) -> FakeCameraView {
        FakeCameraView { open: self.open, zoom: self.zoom@, focus: self.focus@ }
    }
}

impl Default for SimpleFakeCamera {
    fn default() -> (r: Self)
        ensures
            r@ == (FakeCameraView { open: false, zoom: 0, focus: 0 }),
    {
        SimpleFakeCamera { open: false, zoom: Zoom::minimum(), focus: Focus::minimum() }
    }
}

impl SimpleFakeCamera {
    /// Creates a closed fake camera with minimum zoom and focus.
    pub fn new() -> (r: Self)
        ensures
            r@ == (FakeCameraView { open: false, zoom: 0, focus: 0 }),
    {
        Self::default()
    }

    fn ensure_open(open: bool) -> (r: Result<(), DomainError>)
        ensures
            r is Ok <==> open,
            r matches Err(e) ==> e@ == closed_camera_error(),
    {
        if open {
            Ok(())
        } else {
            Err(DomainError::DeviceUnavailable(String::from_str("simple fake camera is closed")))
        }
    }

    /// Opens the camera; opening an open camera changes nothing.
    pub fn open(&mut self) -> (r: Result<(), DomainError>)
        ensures
            r is Ok,
            final(self)@ == (FakeCameraView { open: true, ..old(self)@ }),
    {
        self.open = true;
        Ok(())
    }

    /// Closes the camera; closing a closed camera changes nothing.
    pub fn close(&mut self) -> (r: Result<(), DomainError>)
        ensures
            r is Ok,
            final(self)@ == (FakeCameraView { open: false, ..old(self)@ }),
    {
        self.open = false;
        Ok(())
    }

    /// Stores a zoom value while open.
    pub fn set_zoom(&mut self, zoom: Zoom) -> (r: Result<(), DomainError>)
        ensures
            r is Ok <==> old(self)@.open,
            r matches Err(e) ==> e@ == closed_camera_error(),
            final(self)@ == old(self)@.with_zoom(zoom@),
    {
        Self::ensure_open(self.open)?;
        self.zoom = zoom;
        Ok(())
    }

    /// Reads the stored zoom value while open.
    pub fn zoom(&self) -> (r: Result<Zoom, DomainError>)
        ensures
            match r {
                Ok(z) => self@.zoom_reading() == Some(z@),
                Err(e) => self@.zoom_reading() is None && e@ == closed_camera_error(),
            },
    {
        Self::ensure_open(self.open)?;
        Ok(self.zoom)
    }

    /// Stores a focus value while open.
    pub fn set_focus(&mut self, focus: Focus) -> (r: Result<(), DomainError>)
        ensures
            r is Ok <==> old(self)@.open,
            r matches Err(e) ==> e@ == closed_camera_error(),
            final(self)@ == old(self)@.with_focus(focus@),
    {
        Self::ensure_open(self.open)?;
        self.focus = focus;
        Ok(())
    }

    /// Reads the stored focus value while open.
    pub fn focus(&self) -> (r: Result<Focus, DomainError>)
        ensures
            match r {
                Ok(f) => self@.focus_reading() == Some(f@),
                Err(e) => self@.focus_reading() is None && e@ == closed_camera_error(),
            },
    {
        Self::ensure_open(self.open)?;
        Ok(self.focus)
    }

    /// Reports the device information while open.
    pub fn info(&self) -> (r: Result<DeviceInfo, DomainError>)
        ensures
            match r {
                Ok(info) => self@.open && info@ == fake_camera_info(),
                Err(e) => !self@.open && e@ == closed_camera_error(),
            },
    {
        Self::ensure_open(self.open)?;
        Ok(DeviceInfo::new("Fake Simple Camera"))
    }
}

/// Law: while the camera is open, a read gives back the last value written, and
/// a zoom write leaves focus unchanged and a focus write leaves zoom unchanged.
pub proof fn fake_camera_reads_back_writes(state: FakeCameraView, zoom: Zoom, focus: Focus)
    requires
        state.open,
    ensures
        state.with_zoom(zoom@).zoom_reading() == Some(zoom@),
        state.with_zoom(zoom@).focus_reading() == state.focus_reading(),
        state.with_focus(focus@).focus_reading() == Some(focus@),
        state.with_focus(focus@).zoom_reading() == state.zoom_reading(),
{
}

/// Law: a closed camera refuses every read and keeps its state through every write.
pub proof fn closed_fake_camera_refuses(state: FakeCameraView, zoom: Zoom, focus: Focus)
    requires
        !state.open,
    ensures
        state.zoom_reading() is None,
        state.focus_reading() is None,
        state.with_zoom(zoom@) == state,
        state.with_focus(focus@) == state,
{
}

} // verus!
