use camera_controller_rust::camera_core::text::decimal_string;
use camera_controller_rust::camera_core::{Capability, DeviceInfo, DomainError, Focus, Zoom};

#[test]
fn zoom_accepts_only_normalized_boundaries() {
    assert_eq!(Zoom::new(0).expect("zero is valid").value(), 0);
    assert_eq!(Zoom::new(100).expect("one hundred is valid").value(), 100);
    assert!(matches!(
        Zoom::new(-1),
        Err(DomainError::InvalidArgument { .. })
    ));
    assert!(matches!(
        Zoom::new(101),
        Err(DomainError::InvalidArgument { .. })
    ));
}

#[test]
fn focus_accepts_only_normalized_boundaries() {
    assert_eq!(Focus::new(0).expect("zero is valid").value(), 0);
    assert_eq!(Focus::new(100).expect("one hundred is valid").value(), 100);
    assert!(matches!(
        Focus::new(-1),
        Err(DomainError::InvalidArgument { .. })
    ));
    assert!(matches!(
        Focus::new(101),
        Err(DomainError::InvalidArgument { .. })
    ));
}

#[test]
fn zoom_rejection_names_the_field_value_and_range() {
    assert_eq!(
        Zoom::new(101),
        Err(DomainError::InvalidArgument {
            field: "zoom",
            value: "101".to_owned(),
            expected: "0..=100",
        })
    );
    assert_eq!(
        Focus::new(-7),
        Err(DomainError::InvalidArgument {
            field: "focus",
            value: "-7".to_owned(),
            expected: "0..=100",
        })
    );
    assert_eq!(
        Zoom::new(i64::MIN),
        Err(DomainError::InvalidArgument {
            field: "zoom",
            value: i64::MIN.to_string(),
            expected: "0..=100",
        })
    );
}

#[test]
fn minimum_and_maximum_are_the_range_ends() {
    assert_eq!(Zoom::minimum().value(), 0);
    assert_eq!(Zoom::maximum().value(), 100);
    assert_eq!(Focus::minimum().value(), 0);
    assert_eq!(Focus::maximum().value(), 100);
}

#[test]
fn every_normalized_value_round_trips() {
    for value in 0..=100i64 {
        let zoom = Zoom::new(value).expect("normalized zoom");
        assert_eq!(i64::from(zoom.value()), value);
        assert_eq!(Zoom::new(i64::from(zoom.value())), Ok(zoom));
        let focus = Focus::new(value).expect("normalized focus");
        assert_eq!(Focus::new(i64::from(focus.value())), Ok(focus));
    }
}

#[test]
fn decimal_text_matches_std_formatting() {
    for value in [0i64, 7, 9, 10, 42, 100, 101, -1, -10, 1234567890, i64::MAX, i64::MIN] {
        assert_eq!(decimal_string(value), value.to_string());
    }
}

#[test]
fn domain_error_messages() {
    let invalid = DomainError::InvalidArgument {
        field: "zoom",
        value: "101".to_owned(),
        expected: "0..=100",
    };
    assert_eq!(invalid.message(), "invalid zoom: 101; expected 0..=100");
    assert_eq!(
        DomainError::UnsupportedCapability("autofocus").message(),
        "capability 'autofocus' is not supported"
    );
    assert_eq!(DomainError::NotRunning.message(), "camera service is not running");
    assert_eq!(
        DomainError::DeviceUnavailable("closed".to_owned()).message(),
        "device is unavailable: closed"
    );
    assert_eq!(
        DomainError::Device("failed".to_owned()).message(),
        "device operation failed: failed"
    );
}

#[test]
fn device_info_keeps_its_text() {
    assert_eq!(DeviceInfo::new("test camera").as_str(), "test camera");
    assert_ne!(Capability::Zoom, Capability::Focus);
}
