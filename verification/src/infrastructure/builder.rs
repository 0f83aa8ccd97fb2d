use vstd::prelude::*;

use crate::camera_core::capabilities::Capability;
use crate::camera_core::device::DevicePorts;
use crate::config::DeviceName;

verus! {

/// Builds the device ports of the named device from the ports its adapter
/// provides. The simple fake camera registers its lifecycle, zoom, focus and
/// information ports, and no autofocus or stabilization port.
pub fn build_device<L, Z, F, I, A, S>(
    device_name: DeviceName,
    lifecycle: L,
    zoom: Z,
    focus: F,
    info: I,
) -> (r: DevicePorts<L, Z, F, I, A, S>)
    ensures
        device_name == DeviceName::FakeSimple ==> {
            &&& r.lifecycle_port() == lifecycle
            &&& r.zoom_port() == Some(zoom)
            &&& r.focus_port() == Some(focus)
            &&& r.info_port() == Some(info)
            &&& r.autofocus_port() is None
            &&& r.stabilization_port() is None
            &&& r.registered_capabilities()
                == seq![Capability::Zoom, Capability::Focus, Capability::Info]
        },
{
    match device_name {
        DeviceName::FakeSimple => DevicePorts::builder(lifecycle)
            .with_zoom(zoom)
            .with_focus(focus)
            .with_info(info)
            .build(),
    }
}

} // verus!
