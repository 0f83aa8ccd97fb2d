pub mod builder;
pub mod devices;

pub use builder::build_device;
pub use devices::SimpleFakeCamera;
