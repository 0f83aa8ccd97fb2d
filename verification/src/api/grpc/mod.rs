pub mod service;
pub mod status;

pub use service::{capability_numbers, to_proto_capability, ProtoCapability};
pub use status::{status_code, StatusCode};
