use vstd::prelude::*;

verus! {

/// The API adapter to serve.
#[derive(Debug, Clone, Copy, PartialEq, Eq, Structural)]
pub enum ApiType {
    Grpc,
}

/// The kind of device the core controls.
#[derive(Debug, Clone, Copy, PartialEq, Eq, Structural)]
pub enum DeviceType {
    Camera,
}

/// The concrete device adapter to build.
#[derive(Debug, Clone, Copy, PartialEq, Eq, Structural)]
pub enum DeviceName {
    FakeSimple,
}

/// The configured logging level.
#[derive(Debug, Clone, Copy, PartialEq, Eq, Structural)]
pub enum LogLevel {
    Trace,
    Debug,
    Info,
    Warn,
    Error,
}

/// The name of a logging level, as the tracing filter expects it.
pub open spec fn log_level_name(level: LogLevel) -> Seq<char> {
    match level {
        LogLevel::Trace => "trace"@,
        LogLevel::Debug => "debug"@,
        LogLevel::Info => "info"@,
        LogLevel::Warn => "warn"@,
        LogLevel::Error => "error"@,
    }
}

impl LogLevel {
    /// The name of the level.
    pub fn as_str(self) -> (r: &'static str)
        ensures
            r@ == log_level_name(self),
    {
        match self {
            LogLevel::Trace => "trace",
            LogLevel::Debug => "debug",
            LogLevel::Info => "info",
            LogLevel::Warn => "warn",
            LogLevel::Error => "error",
        }
    }
}

/// The `app.api` section.
#[derive(Debug, Clone, Copy, PartialEq, Eq)]
pub struct ApiConfig {
    pub api_type: ApiType,
    pub port: u16,
}

/// The `app.core` section.
#[derive(Debug, Clone, Copy, PartialEq, Eq)]
pub struct CoreConfig {
    pub device_type: DeviceType,
}

/// The `app.infrastructure` section.
#[derive(Debug, Clone, Copy, PartialEq, Eq)]
pub struct InfrastructureConfig {
    pub device_name: DeviceName,
}

/// The `app` section of a configuration document, as read and before validation.
#[derive(Debug, Clone, PartialEq, Eq)]
pub struct AppConfig {
    pub name: String,
    pub log_level: LogLevel,
    pub api: ApiConfig,
    pub core_config: CoreConfig,
    pub infrastructure: InfrastructureConfig,
}

/// A failure to read, parse or validate the configuration.
#[derive(Debug)]
pub enum ConfigError {
    /// The file could not be read; `source` is the reason as text.
    Read { path: String, source: String },
    /// The document does not have the required shape at `path`.
    Deserialize { path: String, message: String },
    /// A field holds a value outside its allowed range.
    Validation { path: &'static str, message: &'static str },
}

/// The mathematical content of a [`ConfigError`].
pub enum ConfigErrorView {
    Read { path: Seq<char>, source: Seq<char> },
    Deserialize { path: Seq<char>, message: Seq<char> },
    Validation { path: Seq<char>, message: Seq<char> },
}

impl View for ConfigError {
    type V = ConfigErrorView;

    open spec fn view(&self) -> ConfigErrorView {
        match self {
            ConfigError::Read { path, source } => ConfigErrorView::Read { path: path@, source: source@ },
            ConfigError::Deserialize { path, message } => ConfigErrorView::Deserialize {
                path: path@,
                message: message@,
            },
            ConfigError::Validation { path, message } => ConfigErrorView::Validation {
                path: path@,
                message: message@,
            },
        }
    }
}

/// The human-readable message of a configuration error.
pub open spec fn config_error_message(e: ConfigErrorView) -> Seq<char> {
    match e {
        ConfigErrorView::Read { path, source } =>
            "failed to read configuration '"@ + path + "': "@ + source,
        ConfigErrorView::Deserialize { path, message } =>
            "invalid configuration at "@ + path + ": "@ + message,
        ConfigErrorView::Validation { path, message } =>
            "invalid configuration at "@ + path + ": "@ + message,
    }
}

impl ConfigError {
    /// Renders the error's message.
    pub fn message(&self) -> (r: String)
        ensures
            r@ == config_error_message(self@),
    {
        match self {
            ConfigError::Read { path, source } => {
                let mut s = String::from_str("failed to read configuration '");
                s.append(path.as_str());
                s.append("': ");
                s.append(source.as_str());
                s
            },
            ConfigError::Deserialize { path, message } => {
                let mut s = String::from_str("invalid configuration at ");
                s.append(path.as_str());
                s.append(": ");
                s.append(message.as_str());
                s
            },
            ConfigError::Validation { path, message } => {
                let mut s = String::from_str("invalid configuration at ");
                s.append(path);
                s.append(": ");
                s.append(message);
                s
            },
        }
    }
}

/// Whether `c` has the Unicode `White_Space` property.
pub open spec fn is_white_space(c: char) -> bool {
    let v = c as u32;
    (0x9 <= v <= 0xd) || v == 0x20 || v == 0x85 || v == 0xa0 || v == 0x1680
        || (0x2000 <= v <= 0x200a) || v == 0x2028 || v == 0x2029 || v == 0x202f
        || v == 0x205f || v == 0x3000
}

/// Whether a text is empty once leading and trailing white space is removed,
/// that is, whether every character of it is white space.
pub open spec fn is_blank(text: Seq<char>) -> bool {
    forall|i: int| 0 <= i < text.len() ==> is_white_space(#[trigger] text[i])
}

/// Whether `c` has the Unicode `White_Space` property, the property that
/// `char::is_whitespace` and `str::trim` go by.
fn char_is_whitespace(c: char) -> (r: bool)
    ensures
        r == is_white_space(c),
{
    let v = c as u32;
    (0x9 <= v && v <= 0xd) || v == 0x20 || v == 0x85 || v == 0xa0 || v == 0x1680
        || (0x2000 <= v && v <= 0x200a) || v == 0x2028 || v == 0x2029 || v == 0x202f
        || v == 0x205f || v == 0x3000
}

fn text_is_blank(text: &str) -> (r: bool)
    ensures
        r == is_blank(text@),
{
    let n = text.unicode_len();
    let mut i: usize = 0;
    while i < n
        invariant
            n == text@.len(),
            0 <= i <= n,
            forall|j: int| 0 <= j < i ==> is_white_space(#[trigger] text@[j]),
        decreases n - i,
    {
        if !char_is_whitespace(text.get_char(i)) {
            return false;
        }
        i = i + 1;
    }
    true
}

/// The first rule a configuration document breaks, or `None` when it is valid:
/// the application name must not be blank, and the port must not be zero.
pub open spec fn document_error(app: AppConfig) -> Option<ConfigErrorView> {
    if is_blank(app.name@) {
        Some(ConfigErrorView::Validation { path: "app.name"@, message: "must be nonempty after trimming"@ })
    } else if app.api.port == 0 {
        Some(ConfigErrorView::Validation { path: "app.api.port"@, message: "must be in 1..=65535"@ })
    } else {
        None
    }
}

/// Law: a configuration document is valid exactly when its name holds a
/// character that is not white space and its port is not 0; a blank name is
/// the error reported whatever the port, and the port error is reported only
/// for a name that is not blank and port 0. Every port in `1..=65535` is
/// accepted with any name that is not blank.
pub proof fn document_rules(app: AppConfig)
    ensures
        document_error(app) is None <==> (!is_blank(app.name@) && app.api.port != 0),
        (document_error(app) matches Some(e) && e is Validation && e->Validation_path == "app.name"@)
            <==> is_blank(app.name@),
        (document_error(app) matches Some(e) && e is Validation
            && e->Validation_path == "app.api.port"@) <==> (!is_blank(app.name@) && app.api.port == 0),
        !is_blank(app.name@) <==> exists|i: int| 0 <= i < app.name@.len() && !is_white_space(
            #[trigger] app.name@[i],
        ),
{
    assert("app.name"@ != "app.api.port"@) by {
        reveal_strlit("app.name");
        reveal_strlit("app.api.port");
        assert("app.name"@.len() != "app.api.port"@.len());
    }
    if !is_blank(app.name@) {
        let i = choose|i: int| 0 <= i < app.name@.len() && !is_white_space(#[trigger] app.name@[i]);
        assert(0 <= i < app.name@.len() && !is_white_space(app.name@[i]));
    }
}

/// A validated service configuration.
#[derive(Debug, PartialEq, Eq)]
pub struct Config {
    app: AppConfig,
}

impl Config {
    /// The document this configuration was validated from.
    pub closed spec fn document(&self) -> AppConfig {
        self.app
    }

    #[verifier::type_invariant]
    spec fn is_valid(self) -> bool {
        document_error(self.app) is None
    }

    /// Validates a configuration document.
    pub fn from_document(app: AppConfig) -> (r: Result<Config, ConfigError>)
        ensures
            match r {
                Ok(config) => document_error(app) is None && config.document() == app,
                Err(e) => document_error(app) == Some(e@),
            },
            r is Ok <==> (!is_blank(app.name@) && app.api.port != 0),
            is_blank(app.name@) ==> (r matches Err(e) && e@ == ConfigErrorView::Validation {
                path: "app.name"@,
                message: "must be nonempty after trimming"@,
            }),
            !is_blank(app.name@) && app.api.port == 0 ==> (r matches Err(e) && e@
                == ConfigErrorView::Validation { path: "app.api.port"@, message: "must be in 1..=65535"@ }),
    {
        proof { document_rules(app); }
        Self::validate(&app)?;
        Ok(Config { app })
    }

    fn validate(app: &AppConfig) -> (r: Result<(), ConfigError>)
        ensures
            match r {
                Ok(()) => document_error(*app) is None,
                Err(e) => document_error(*app) == Some(e@),
            },
            r is Ok <==> (!is_blank(app.name@) && app.api.port != 0),
    {
        proof { document_rules(*app); }
        if text_is_blank(app.name.as_str()) {
            return Err(ConfigError::Validation {
                path: "app.name",
                message: "must be nonempty after trimming",
            });
        }
        if app.api.port == 0 {
            return Err(ConfigError::Validation { path: "app.api.port", message: "must be in 1..=65535" });
        }
        Ok(())
    }

    pub fn app_name(&self) -> (r: &str)
        ensures
            r@ == self.document().name@,
            !is_blank(r@),
    {
        proof { use_type_invariant(self); }
        self.app.name.as_str()
    }

    pub fn log_level(&self) -> (r: &'static str)
        ensures
            r@ == log_level_name(self.document().log_level),
    {
        self.app.log_level.as_str()
    }

    pub fn api_type(&self) -> (r: ApiType)
        ensures
            r == self.document().api.api_type,
    {
        self.app.api.api_type
    }

    pub fn api_port(&self) -> (r: u16)
        ensures
            r == self.document().api.port,
            r != 0,
    {
        proof { use_type_invariant(self); }
        self.app.api.port
    }

    pub fn device_type(&self) -> (r: DeviceType)
        ensures
            r == self.document().core_config.device_type,
    {
        self.app.core_config.device_type
    }

    pub fn device_name(&self) -> (r: DeviceName)
        ensures
            r == self.document().infrastructure.device_name,
    {
        self.app.infrastructure.device_name
    }
}

} // verus!
