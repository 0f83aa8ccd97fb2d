[package]
name = "camera_controller_rust"
version = "0.1.0"
edition = "2021"
publish = false

[dependencies]
anyhow = "=1.0.104"
async-trait = "=0.1.92"
clap = { version = "=4.6.7", features = ["derive"] }
prost = "=0.14.4"
prost-types = "=0.14.4"
serde = { version = "=1.0.229", features = ["derive"] }
serde_path_to_error = "=0.1.20"
serde_yaml_ng = "=0.10.0"
thiserror = "=2.0.21"
tokio = { version = "=1.54.1", features = ["full"] }
tokio-stream = { version = "=0.1.19", features = ["net"] }
tokio-util = "=0.7.20"
tonic = "=0.14.9"
tonic-health = "=0.14.9"
tonic-prost = "=0.14.9"
tonic-reflection = "=0.14.9"
tracing = "=0.1.44"
tracing-subscriber = { version = "=0.3.23", features = ["env-filter"] }
