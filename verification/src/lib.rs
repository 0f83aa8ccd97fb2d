//! Camera control library: validated domain values, capability ports,
//! the core lifecycle state machine, configuration rules, the in-memory
//! simple fake camera, and the protocol mappings of the gRPC adapter.

pub mod api;
pub mod camera_core;
pub mod config;
pub mod controller;
pub mod driver;
pub mod infrastructure;
pub mod types;
