# camera_controller_rust

A camera control service whose decision logic is a Verus-verified library.

- `src/` — the verified library:
  - `camera_core/` — validated `Zoom` and `Focus` values, `DeviceInfo`,
    `Capability`, `DomainError` and its messages, decimal formatting,
    `DevicePorts` (capabilities derived from registered ports), and the
    `CameraCore` lifecycle state machine (`Created → Running → Stopped`)
    that decides every start, stop and capability request.
  - `infrastructure/` — the in-memory `SimpleFakeCamera` and `build_device`.
  - `config.rs` — configuration document, validation rules and accessors.
  - `api/grpc/` — error-to-status-code and capability-to-wire-number mappings.
  - `controller.rs`, `driver.rs`, `types.rs`, `camera_core/zoom_core.rs` — the
    controller → core → driver zoom pipeline.
- `app/` — the service around it: YAML loading, asynchronous device ports,
  the lock-guarded camera service, the gRPC server with health and reflection,
  and `main`.
- `tests/` — tests of the library.
