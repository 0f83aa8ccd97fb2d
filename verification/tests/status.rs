use camera_controller_rust::api::grpc::{
    capability_numbers, status_code, to_proto_capability, ProtoCapability, StatusCode,
};
use camera_controller_rust::camera_core::{Capability, DomainError};
use tonic::Code;

fn code(error: DomainError) -> Code {
    Code::from_i32(status_code(&error).number())
}

#[test]
fn maps_domain_errors_to_stable_grpc_codes() {
    let invalid = DomainError::InvalidArgument {
        field: "zoom",
        value: "101".to_owned(),
        expected: "0..=100",
    };

    assert_eq!(code(invalid), Code::InvalidArgument);
    assert_eq!(
        code(DomainError::UnsupportedCapability("autofocus")),
        Code::Unimplemented
    );
    assert_eq!(code(DomainError::NotRunning), Code::FailedPrecondition);
    assert_eq!(
        code(DomainError::DeviceUnavailable("closed".to_owned())),
        Code::Unavailable
    );
    assert_eq!(code(DomainError::Device("failed".to_owned())), Code::Internal);
}

#[test]
fn status_codes_are_the_expected_variants() {
    assert_eq!(status_code(&DomainError::NotRunning), StatusCode::FailedPrecondition);
    assert_eq!(StatusCode::InvalidArgument.number(), 3);
    assert_eq!(StatusCode::Unavailable.number(), 14);
}

#[test]
fn capabilities_are_reported_with_their_wire_numbers() {
    assert_eq!(to_proto_capability(Capability::Zoom), ProtoCapability::Zoom);
    assert_eq!(ProtoCapability::Unspecified.number(), 0);
    assert_eq!(
        capability_numbers(&vec![Capability::Zoom, Capability::Focus, Capability::Info]),
        [1, 2, 4]
    );
    assert_eq!(
        capability_numbers(&vec![Capability::AutoFocus, Capability::Stabilization]),
        [3, 5]
    );
    assert!(capability_numbers(&vec![]).is_empty());
}
