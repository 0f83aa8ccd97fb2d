use camera_controller_rust::camera_core::{DomainError, Focus, Zoom};
use camera_controller_rust::infrastructure::SimpleFakeCamera;

#[test]
fn fake_rejects_capability_calls_while_closed() {
    let camera = SimpleFakeCamera::new();

    assert!(matches!(camera.zoom(), Err(DomainError::DeviceUnavailable(_))));
    assert!(matches!(camera.info(), Err(DomainError::DeviceUnavailable(_))));
    assert_eq!(
        camera.focus(),
        Err(DomainError::DeviceUnavailable("simple fake camera is closed".to_owned()))
    );
}

#[test]
fn fake_has_independent_normalized_state_and_idempotent_lifecycle() {
    let mut first = SimpleFakeCamera::new();
    let mut second = SimpleFakeCamera::new();

    first.open().expect("first open must succeed");
    first.open().expect("second open must be idempotent");
    second.open().expect("second instance must open");

    assert_eq!(first.zoom().expect("zoom must read"), Zoom::minimum());
    assert_eq!(first.focus().expect("focus must read"), Focus::minimum());
    assert_eq!(
        first.info().expect("info must read").as_str(),
        "Fake Simple Camera"
    );

    first
        .set_zoom(Zoom::new(27).expect("valid zoom"))
        .expect("zoom must write");
    first
        .set_focus(Focus::new(63).expect("valid focus"))
        .expect("focus must write");

    assert_eq!(first.zoom().expect("zoom must read").value(), 27);
    assert_eq!(first.focus().expect("focus must read").value(), 63);
    assert_eq!(second.zoom().expect("zoom must read"), Zoom::minimum());
    assert_eq!(second.focus().expect("focus must read"), Focus::minimum());

    first.close().expect("first close must succeed");
    first.close().expect("second close must be idempotent");
    assert!(matches!(first.focus(), Err(DomainError::DeviceUnavailable(_))));
}

#[test]
fn writes_while_closed_are_refused_and_change_nothing() {
    let mut camera = SimpleFakeCamera::new();
    assert!(camera.set_zoom(Zoom::maximum()).is_err());
    assert!(camera.set_focus(Focus::maximum()).is_err());
    camera.open().expect("open must succeed");
    assert_eq!(camera.zoom(), Ok(Zoom::minimum()));
    assert_eq!(camera.focus(), Ok(Focus::minimum()));
}

#[test]
fn fake_state_remains_valid_after_every_write() {
    let mut camera = SimpleFakeCamera::default();
    camera.open().expect("open must succeed");
    for value in 0..=100 {
        camera
            .set_zoom(Zoom::new(value).expect("loop value is normalized"))
            .expect("writer must succeed");
        assert_eq!(i64::from(camera.zoom().expect("zoom must read").value()), value);
    }
    assert!(camera.zoom().expect("zoom must read").value() <= 100);
}
