//! Error taxonomy of the serial layer.
use vstd::prelude::*;

verus! {

/// The standard library's classification of I/O failures, carried through
/// unchanged for diagnostics.
#[verifier::external_type_specification]
#[verifier::external_body]
pub struct ExIoErrorKind(std::io::ErrorKind);

/// What kind of failure the serial driver reported.
#[derive(Debug, Clone, Copy, PartialEq, Eq)]
pub enum SerialErrorKind {
    /// The device is not available (absent, or disconnected during I/O).
    NoDevice,
    /// A parameter handed to the driver was incorrect.
    InvalidInput,
    /// An I/O failure of the given kind (not found, permission, timeout, ...).
    Io(std::io::ErrorKind),
}

/// Errors reported by every operation of a serial stream.
#[derive(Debug, Clone, Copy, PartialEq, Eq)]
pub enum UartError {
    /// Catch-all failure with no further detail.
    GenericError,
    /// A read or write was attempted while another call held the port.
    PortBusy,
    /// The serial driver failed; the kind of its failure is kept.
    SerialError(SerialErrorKind),
}

/// The text shown to a person for each kind of error.
pub open spec fn message_of(e: UartError) -> Seq<char> {
    match e {
        UartError::GenericError => "Generic Error"@,
        UartError::PortBusy => "Serial port already in-use"@,
        UartError::SerialError(_) => "Serial Error"@,
    }
}

impl UartError {
    /// The text shown to a person for this error.
    pub fn message(&self) -> (r: String)
        ensures
            r@ == message_of(*self),
    {
        match self {
            UartError::GenericError => "Generic Error".to_owned(),
            UartError::PortBusy => "Serial port already in-use".to_owned(),
            UartError::SerialError(_) => "Serial Error".to_owned(),
        }
    }
}

/// Result of an operation on a serial stream.
pub type UartResult<T> = Result<T, UartError>;

impl From<SerialErrorKind> for UartError {
    /// A driver failure of any kind becomes a `SerialError` of that kind.
    fn from(kind: SerialErrorKind) -> (r: UartError)
        ensures
            r == UartError::SerialError(kind),
    {
        UartError::SerialError(kind)
    }
}

impl vstd::std_specs::convert::FromSpecImpl<SerialErrorKind> for UartError {
    open spec fn obeys_from_spec() -> bool {
        true
    }

    open spec fn from_spec(kind: SerialErrorKind) -> UartError {
        UartError::SerialError(kind)
    }
}

impl From<std::io::ErrorKind> for UartError {
    /// An I/O failure becomes a `SerialError` of the I/O class, keeping its kind.
    fn from(kind: std::io::ErrorKind) -> (r: UartError)
        ensures
            r == UartError::SerialError(SerialErrorKind::Io(kind)),
    {
        UartError::SerialError(SerialErrorKind::Io(kind))
    }
}

impl vstd::std_specs::convert::FromSpecImpl<std::io::ErrorKind> for UartError {
    open spec fn obeys_from_spec() -> bool {
        true
    }

    open spec fn from_spec(kind: std::io::ErrorKind) -> UartError {
        UartError::SerialError(SerialErrorKind::Io(kind))
    }
}

} // verus!
