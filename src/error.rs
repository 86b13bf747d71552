use vstd::prelude::*;

verus! {

/// The category of a failure, as carried by an indeterminate signal.
#[derive(Clone, Copy, Debug, PartialEq, Eq, Structural)]
pub enum ErrorCategory {
    Custom,
    Network,
    Parse,
    Io,
    MalformedHost,
    NoCertificateChain,
    CertificateDateFormat,
    ClockAnomaly,
}

/// Failures of the detector and of its probes.
#[derive(Clone, Debug)]
pub enum Error {
    Custom(String),
    NetworkError(String),
    ParseError(String),
    Io(String),
    /// The host has too few labels to derive an apex domain.
    MalformedHost(String),
    /// The peer presented no certificate chain.
    NoCertificateChain,
    /// A certificate's validity window could not be read.
    CertificateDateFormat(String),
    /// The local clock could not give today's date.
    ClockAnomaly,
}

impl Error {
    pub open spec fn category_spec(&self) -> ErrorCategory {
        match self {
            Error::Custom(_) => ErrorCategory::Custom,
            Error::NetworkError(_) => ErrorCategory::Network,
            Error::ParseError(_) => ErrorCategory::Parse,
            Error::Io(_) => ErrorCategory::Io,
            Error::MalformedHost(_) => ErrorCategory::MalformedHost,
            Error::NoCertificateChain => ErrorCategory::NoCertificateChain,
            Error::CertificateDateFormat(_) => ErrorCategory::CertificateDateFormat,
            Error::ClockAnomaly => ErrorCategory::ClockAnomaly,
        }
    }

    pub fn custom(val: &str) -> (r: Error)
        ensures
            r matches Error::Custom(m) && m@ == val@,
    {
        Error::Custom(String::from_str(val))
    }

    pub fn category(&self) -> (r: ErrorCategory)
        ensures
            r == self.category_spec(),
    {
        match self {
            Error::Custom(_) => ErrorCategory::Custom,
            Error::NetworkError(_) => ErrorCategory::Network,
            Error::ParseError(_) => ErrorCategory::Parse,
            Error::Io(_) => ErrorCategory::Io,
            Error::MalformedHost(_) => ErrorCategory::MalformedHost,
            Error::NoCertificateChain => ErrorCategory::NoCertificateChain,
            Error::CertificateDateFormat(_) => ErrorCategory::CertificateDateFormat,
            Error::ClockAnomaly => ErrorCategory::ClockAnomaly,
        }
    }

    /// A short description of the failure.
    pub fn message(&self) -> (r: String)
        ensures
            self matches Error::Custom(m) ==> r@ == m@,
            self matches Error::NetworkError(m) ==> r@ == m@,
            self matches Error::ParseError(m) ==> r@ == m@,
            self matches Error::Io(m) ==> r@ == m@,
            self matches Error::MalformedHost(m) ==> r@ == m@,
            self matches Error::CertificateDateFormat(m) ==> r@ == m@,
            self is NoCertificateChain ==> r@ == "no certificate chain presented"@,
            self is ClockAnomaly ==> r@ == "system clock out of range"@,
    {
        match self {
            Error::Custom(m) => m.clone(),
            Error::NetworkError(m) => m.clone(),
            Error::ParseError(m) => m.clone(),
            Error::Io(m) => m.clone(),
            Error::MalformedHost(m) => m.clone(),
            Error::CertificateDateFormat(m) => m.clone(),
            Error::NoCertificateChain => String::from_str("no certificate chain presented"),
            Error::ClockAnomaly => String::from_str("system clock out of range"),
        }
    }
}

impl From<&str> for Error {
    fn from(value: &str) -> (r: Error)
        ensures
            r matches Error::Custom(m) && m@ == value@,
    {
        Error::Custom(String::from_str(value))
    }
}

/// A `String` cannot be built from a `&str` in spec code, so the result is
/// described by the `ensures` of `from` alone.
impl vstd::std_specs::convert::FromSpecImpl<&str> for Error {
    open spec fn obeys_from_spec() -> bool {
        false
    }

    open spec fn from_spec(v: &str) -> Error {
        arbitrary()
    }
}

impl From<String> for Error {
    fn from(value: String) -> (r: Error)
        ensures
            r == Error::Custom(value),
    {
        Error::Custom(value)
    }
}

impl vstd::std_specs::convert::FromSpecImpl<String> for Error {
    open spec fn obeys_from_spec() -> bool {
        true
    }

    open spec fn from_spec(v: String) -> Error {
        Error::Custom(v)
    }
}

} // verus!
