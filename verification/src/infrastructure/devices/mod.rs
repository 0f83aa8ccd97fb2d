pub mod fake_simple;

pub use fake_simple::{FakeCameraView, SimpleFakeCamera};
