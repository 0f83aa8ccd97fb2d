use std::sync::Arc;

use camera_controller_rust::camera_core::{Capability, DevicePorts};
use camera_controller_rust::config::DeviceName;
use camera_controller_rust::infrastructure::build_device;

struct TestDevice;

type TestPorts = DevicePorts<
    Arc<TestDevice>,
    Arc<TestDevice>,
    Arc<TestDevice>,
    Arc<TestDevice>,
    Arc<TestDevice>,
    Arc<TestDevice>,
>;

#[test]
fn device_ports_derive_capabilities_from_registered_ports() {
    let device = Arc::new(TestDevice);
    let ports: TestPorts = DevicePorts::builder(device.clone())
        .with_zoom(device.clone())
        .with_focus(device.clone())
        .with_info(device)
        .build();

    assert_eq!(
        ports.capabilities(),
        vec![Capability::Zoom, Capability::Focus, Capability::Info]
    );
    assert!(ports.autofocus().is_none());
    assert!(ports.stabilization().is_none());
}

#[test]
fn builder_registers_only_simple_fake_capabilities() {
    let ports: DevicePorts<u8, u8, u8, u8, u8, u8> =
        build_device(DeviceName::FakeSimple, 0, 1, 2, 3);

    assert_eq!(
        ports.capabilities(),
        vec![Capability::Zoom, Capability::Focus, Capability::Info]
    );
    assert!(ports.autofocus().is_none());
    assert!(ports.stabilization().is_none());
    assert_eq!(*ports.lifecycle(), 0);
    assert_eq!(ports.zoom(), Some(&1));
    assert_eq!(ports.focus(), Some(&2));
    assert_eq!(ports.info(), Some(&3));
}

#[test]
fn capabilities_follow_the_fixed_order_whatever_the_registration_order() {
    let ports: DevicePorts<(), u8, u8, u8, u8, u8> = DevicePorts::builder(())
        .with_stabilization(5)
        .with_info(4)
        .with_autofocus(3)
        .with_focus(2)
        .with_zoom(1)
        .build();
    assert_eq!(
        ports.capabilities(),
        vec![
            Capability::Zoom,
            Capability::Focus,
            Capability::AutoFocus,
            Capability::Info,
            Capability::Stabilization
        ]
    );
    assert_eq!(ports.autofocus(), Some(&3));
    assert_eq!(ports.stabilization(), Some(&5));
}

#[test]
fn a_device_without_optional_ports_reports_no_capabilities() {
    let ports: DevicePorts<(), u8, u8, u8, u8, u8> = DevicePorts::builder(()).build();
    assert!(ports.capabilities().is_empty());
    assert!(ports.zoom().is_none());
    assert!(ports.focus().is_none());
    assert!(ports.info().is_none());
}

#[test]
fn the_last_registration_of_a_port_wins() {
    let ports: DevicePorts<u8, u8, u8, u8, u8, u8> = DevicePorts::builder(9)
        .with_zoom(1)
        .with_focus(2)
        .with_zoom(3)
        .with_stabilization(4)
        .with_stabilization(5)
        .build();
    assert_eq!(*ports.lifecycle(), 9);
    assert_eq!(ports.zoom(), Some(&3));
    assert_eq!(ports.focus(), Some(&2));
    assert_eq!(ports.stabilization(), Some(&5));
    assert!(ports.info().is_none());
    assert!(ports.autofocus().is_none());
    assert_eq!(
        ports.capabilities(),
        vec![Capability::Zoom, Capability::Focus, Capability::Stabilization]
    );
}
