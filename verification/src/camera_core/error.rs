use vstd::prelude::*;

verus! {

/// A failure of a core use case, of a device port, or of input validation.
#[derive(Debug, Clone, PartialEq, Eq)]
pub enum DomainError {
    InvalidArgument { field: &'static str, value: String, expected: &'static str },
    UnsupportedCapability(&'static str),
    NotRunning,
    DeviceUnavailable(String),
    Device(String),
}

/// The mathematical content of a [`DomainError`]: every text as a sequence of characters.
pub enum DomainErrorView {
    InvalidArgument { field: Seq<char>, value: Seq<char>, expected: Seq<char> },
    UnsupportedCapability(Seq<char>),
    NotRunning,
    DeviceUnavailable(Seq<char>),
    Device(Seq<char>),
}

impl View for DomainError {
    type V = DomainErrorView;

    open spec fn view(&self) -> DomainErrorView {
        match self {
            DomainError::InvalidArgument { field, value, expected } => DomainErrorView::InvalidArgument {
                field: field@,
                value: value@,
                expected: expected@,
            },
            DomainError::UnsupportedCapability(name) => DomainErrorView::UnsupportedCapability(name@),
            DomainError::NotRunning => DomainErrorView::NotRunning,
            DomainError::DeviceUnavailable(reason) => DomainErrorView::DeviceUnavailable(reason@),
            DomainError::Device(reason) => DomainErrorView::Device(reason@),
        }
    }
}

/// The human-readable message of an error.
pub open spec fn error_message(e: DomainErrorView) -> Seq<char> {
    match e {
        DomainErrorView::InvalidArgument { field, value, expected } =>
            "invalid "@ + field + ": "@ + value + "; expected "@ + expected,
        DomainErrorView::UnsupportedCapability(name) =>
            "capability '"@ + name + "' is not supported"@,
        DomainErrorView::NotRunning => "camera service is not running"@,
        DomainErrorView::DeviceUnavailable(reason) => "device is unavailable: "@ + reason,
        DomainErrorView::Device(reason) => "device operation failed: "@ + reason,
    }
}

impl DomainError {
    /// Renders the error's message.
    pub fn message(&self) -> (r: String)
        ensures
            r@ == error_message(self@),
    {
        match self {
            DomainError::InvalidArgument { field, value, expected } => {
                let mut s = String::from_str("invalid ");
                s.append(field);
                s.append(": ");
                s.append(value.as_str());
                s.append("; expected ");
                s.append(expected);
                s
            },
            DomainError::UnsupportedCapability(name) => {
                let mut s = String::from_str("capability '");
                s.append(name);
                s.append("' is not supported");
                s
            },
            DomainError::NotRunning => String::from_str("camera service is not running"),
            DomainError::DeviceUnavailable(reason) => {
                let mut s = String::from_str("device is unavailable: ");
                s.append(reason.as_str());
                s
            },
            DomainError::Device(reason) => {
                let mut s = String::from_str("device operation failed: ");
                s.append(reason.as_str());
                s
            },
        }
    }
}

} // verus!
