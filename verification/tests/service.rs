use camera_controller_rust::camera_core::{
    CameraCore, Capability, DevicePorts, DomainError, LifecycleState, StartStep, StopStep,
};

type Ports = DevicePorts<&'static str, u8, u8, u8, u8, u8>;

fn supported_ports() -> Ports {
    DevicePorts::builder("lifecycle")
        .with_zoom(1)
        .with_focus(2)
        .with_info(3)
        .build()
}

fn started(core: &mut CameraCore<&'static str, u8, u8, u8, u8, u8>) {
    assert_eq!(core.start_step(), Ok(StartStep::OpenDevice));
    assert_eq!(core.finish_start(Ok(())), Ok(()));
}

#[test]
fn rejects_operations_before_start() {
    let core = CameraCore::new(supported_ports());

    assert_eq!(core.zoom_capability(), Err(DomainError::NotRunning));
    assert_eq!(core.capabilities(), Err(DomainError::NotRunning));
}

#[test]
fn lifecycle_is_idempotent_and_opens_and_closes_once() {
    let mut core = CameraCore::new(supported_ports());
    assert_eq!(core.lifecycle_state(), LifecycleState::Created);

    started(&mut core);
    assert_eq!(core.lifecycle_state(), LifecycleState::Running);
    assert_eq!(core.start_step(), Ok(StartStep::AlreadyRunning));

    assert_eq!(core.zoom_capability(), Ok(&1));
    assert_eq!(core.focus_capability(), Ok(&2));
    assert_eq!(core.info_capability(), Ok(&3));
    assert_eq!(
        core.capabilities(),
        Ok(vec![Capability::Zoom, Capability::Focus, Capability::Info])
    );

    assert_eq!(core.stop(), StopStep::CloseDevice);
    assert_eq!(core.stop(), StopStep::Nothing);
    assert_eq!(core.lifecycle_state(), LifecycleState::Stopped);
    assert_eq!(core.start_step(), Err(DomainError::NotRunning));
    assert_eq!(core.zoom_capability(), Err(DomainError::NotRunning));
}

#[test]
fn reports_missing_optional_capabilities_as_unsupported() {
    let mut core = CameraCore::new(supported_ports());
    started(&mut core);

    assert_eq!(
        core.autofocus_capability(),
        Err(DomainError::UnsupportedCapability("autofocus"))
    );
    assert_eq!(
        core.stabilization_capability(),
        Err(DomainError::UnsupportedCapability("stabilization"))
    );
}

#[test]
fn a_failed_open_leaves_the_core_created() {
    let mut core = CameraCore::new(supported_ports());
    assert_eq!(core.start_step(), Ok(StartStep::OpenDevice));
    let failure = Err(DomainError::Device("no device".to_owned()));
    assert_eq!(core.finish_start(failure.clone()), failure);
    assert_eq!(core.lifecycle_state(), LifecycleState::Created);
    assert_eq!(core.start_step(), Ok(StartStep::OpenDevice));
}

#[test]
fn stopping_a_core_that_never_ran_closes_nothing() {
    let mut core = CameraCore::new(supported_ports());
    assert_eq!(core.stop(), StopStep::Nothing);
    assert_eq!(core.start_step(), Err(DomainError::NotRunning));
    assert_eq!(core.require_running(), Err(DomainError::NotRunning));
}

#[test]
fn unsupported_zoom_focus_and_info_are_reported_by_name() {
    let ports: Ports = DevicePorts::builder("lifecycle").build();
    let mut core = CameraCore::new(ports);
    started(&mut core);
    assert_eq!(core.zoom_capability(), Err(DomainError::UnsupportedCapability("zoom")));
    assert_eq!(core.focus_capability(), Err(DomainError::UnsupportedCapability("focus")));
    assert_eq!(core.info_capability(), Err(DomainError::UnsupportedCapability("info")));
    assert_eq!(core.capabilities(), Ok(vec![]));
    assert_eq!(*core.ports().lifecycle(), "lifecycle");
}
