pub mod capabilities;
pub mod device;
pub mod error;
pub mod service;
pub mod zoom_core;
pub mod text;

pub use capabilities::{Capability, DeviceInfo, Focus, Zoom};
pub use error::{DomainError, DomainErrorView};
pub use device::{capability_list, DevicePorts, DevicePortsBuilder, PortRegistration};
pub use service::{CameraCore, LifecycleEvent, LifecycleState, StartStep, StopStep};
