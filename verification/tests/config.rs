use camera_controller_rust::config::{
    ApiConfig, ApiType, AppConfig, Config, ConfigError, CoreConfig, DeviceName, DeviceType,
    InfrastructureConfig, LogLevel,
};

fn document(name: &str, port: u16) -> AppConfig {
    AppConfig {
        name: name.to_owned(),
        log_level: LogLevel::Info,
        api: ApiConfig {
            api_type: ApiType::Grpc,
            port,
        },
        core_config: CoreConfig {
            device_type: DeviceType::Camera,
        },
        infrastructure: InfrastructureConfig {
            device_name: DeviceName::FakeSimple,
        },
    }
}

#[test]
fn accepts_the_approved_document_as_typed_configuration() {
    let config = Config::from_document(document("camera-controller-rust", 50051))
        .expect("approved document must validate");

    assert_eq!(config.app_name(), "camera-controller-rust");
    assert_eq!(config.log_level(), "info");
    assert_eq!(config.api_type(), ApiType::Grpc);
    assert_eq!(config.api_port(), 50051);
    assert_eq!(config.device_type(), DeviceType::Camera);
    assert_eq!(config.device_name(), DeviceName::FakeSimple);
}

#[test]
fn rejects_a_blank_application_name() {
    let error = Config::from_document(document("   ", 50051)).expect_err("blank name must fail");

    assert!(error.message().contains("app.name"));
    assert!(error.message().contains("nonempty"));
    let error = Config::from_document(document("", 50051)).expect_err("empty name must fail");
    assert!(error.message().contains("app.name"));
    let error = Config::from_document(document("\t\u{3000}\n", 50051))
        .expect_err("unicode white space only must fail");
    assert!(error.message().contains("app.name"));
}

#[test]
fn format_characters_outside_white_space_are_text() {
    let config = Config::from_document(document("\u{200b}", 50051))
        .expect("a zero-width space is not white space");
    assert_eq!(config.app_name(), "\u{200b}");
    assert!(Config::from_document(document("\u{180e}", 50051)).is_ok());
    assert!(Config::from_document(document("\u{85}\u{a0}\u{2028}", 50051)).is_err());
}

#[test]
fn blank_names_are_exactly_the_white_space_of_std() {
    for code in (0u32..0x3100).chain([0xfeff, 0x10ffff]) {
        if let Some(c) = char::from_u32(code) {
            let rejected = Config::from_document(document(&c.to_string(), 1)).is_err();
            assert_eq!(rejected, c.is_whitespace(), "code point {code:#x}");
        }
    }
}

#[test]
fn rejects_port_zero() {
    let error = Config::from_document(document("camera-controller-rust", 0))
        .expect_err("port zero must fail");

    assert!(error.message().contains("app.api.port"));
    assert!(error.message().contains("1..=65535"));
}

#[test]
fn name_is_checked_before_port() {
    let error = Config::from_document(document(" ", 0)).expect_err("must fail");
    assert!(matches!(error, ConfigError::Validation { path: "app.name", .. }));
}

#[test]
fn names_with_inner_text_are_accepted() {
    let config = Config::from_document(document("  cam  ", 1)).expect("must validate");
    assert_eq!(config.app_name(), "  cam  ");
    assert_eq!(config.api_port(), 1);
}

#[test]
fn log_level_names() {
    assert_eq!(LogLevel::Trace.as_str(), "trace");
    assert_eq!(LogLevel::Debug.as_str(), "debug");
    assert_eq!(LogLevel::Warn.as_str(), "warn");
    assert_eq!(LogLevel::Error.as_str(), "error");
}

#[test]
fn config_error_messages() {
    let read = ConfigError::Read {
        path: "/path/that/does/not/exist/config.yaml".to_owned(),
        source: "No such file or directory (os error 2)".to_owned(),
    };
    assert_eq!(
        read.message(),
        "failed to read configuration '/path/that/does/not/exist/config.yaml': No such file or directory (os error 2)"
    );
    let parse = ConfigError::Deserialize {
        path: "app.api".to_owned(),
        message: "unknown field `host`".to_owned(),
    };
    assert_eq!(parse.message(), "invalid configuration at app.api: unknown field `host`");
}
