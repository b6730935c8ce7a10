//! Error taxonomy of the library. Every component failure is surfaced
//! unmodified to the immediate caller; there is no retry and no fallback.
//! Variants that carry a `String` hold the underlying transport or encoder
//! message verbatim.
use vstd::prelude::*;

verus! {

use vstd::string::StringExecFns;

/// Failure of the screen-capture primitive.
#[derive(Debug, Clone, PartialEq, Eq)]
pub enum CaptureError {
    /// No monitor contains the origin point.
    MonitorNotFound(String),
    /// The OS capture call itself failed.
    CaptureFailed(String),
}

/// Failure of the downscaling step.
#[derive(Debug, Clone, PartialEq, Eq)]
pub enum ResizeError {
    /// A source dimension is zero.
    InvalidDimensions,
    /// A source view or destination buffer could not be constructed.
    AllocationFailed(String),
}

/// Failure of the JPEG encoding step.
#[derive(Debug, Clone, PartialEq, Eq)]
pub enum EncodeError {
    /// The buffer length does not equal `width * height * 3`.
    DimensionMismatch,
    /// The encoder itself refused the image.
    EncoderFailure(String),
}

/// Failure to open a serial transport.
#[derive(Debug, Clone, PartialEq, Eq)]
pub enum ConnectError {
    /// The underlying open call failed; the transport's message is kept.
    OpenFailed(String),
}

/// Failure to send a command over the serial session.
#[derive(Debug, Clone, PartialEq, Eq)]
pub enum SendError {
    /// The session holds no open connection.
    NotConnected,
    /// The synchronous write call failed.
    WriteFailed(String),
}

/// Failure of the mouse-position query.
#[derive(Debug, Clone, PartialEq, Eq)]
pub enum QueryError {
    /// The OS reported no cursor position.
    Unavailable,
}

impl CaptureError {
    /// The underlying message, as the capture primitive reported it.
    pub fn message(&self) -> (r: String)
        ensures
            self matches CaptureError::MonitorNotFound(m) ==> r@ == m@,
            self matches CaptureError::CaptureFailed(m) ==> r@ == m@,
    {
        match self {
            CaptureError::MonitorNotFound(m) => String::from_str(m.as_str()),
            CaptureError::CaptureFailed(m) => String::from_str(m.as_str()),
        }
    }
}

impl ResizeError {
    /// A descriptive message for the caller-facing string error channel.
    pub fn message(&self) -> (r: String)
        ensures
            self matches ResizeError::InvalidDimensions ==> r@ == "Invalid image dimensions"@,
            self matches ResizeError::AllocationFailed(m) ==> r@ == m@,
    {
        match self {
            ResizeError::InvalidDimensions => String::from_str("Invalid image dimensions"),
            ResizeError::AllocationFailed(m) => String::from_str(m.as_str()),
        }
    }
}

impl EncodeError {
    /// A descriptive message for the caller-facing string error channel.
    pub fn message(&self) -> (r: String)
        ensures
            self matches EncodeError::DimensionMismatch ==> r@ == "Image buffer does not match its dimensions"@,
            self matches EncodeError::EncoderFailure(m) ==> r@ == m@,
    {
        match self {
            EncodeError::DimensionMismatch => String::from_str(
                "Image buffer does not match its dimensions",
            ),
            EncodeError::EncoderFailure(m) => String::from_str(m.as_str()),
        }
    }
}

impl ConnectError {
    /// The message of the failed open, prefixed as the session reports it.
    pub fn message(&self) -> (r: String)
        ensures
            self matches ConnectError::OpenFailed(m) ==> r@ == "Failed to connect to Arduino: "@
                + m@,
    {
        match self {
            ConnectError::OpenFailed(m) => String::from_str("Failed to connect to Arduino: ")
                .concat(m.as_str()),
        }
    }
}

impl SendError {
    /// The message of the failed send, as the session reports it.
    pub fn message(&self) -> (r: String)
        ensures
            self matches SendError::NotConnected ==> r@ == "No Arduino connected"@,
            self matches SendError::WriteFailed(m) ==> r@ == "Failed to send command: "@ + m@,
    {
        match self {
            SendError::NotConnected => String::from_str("No Arduino connected"),
            SendError::WriteFailed(m) => String::from_str("Failed to send command: ").concat(
                m.as_str(),
            ),
        }
    }
}

impl QueryError {
    /// The message of the failed query.
    pub fn message(&self) -> (r: String)
        ensures
            self matches QueryError::Unavailable ==> r@ == "Error getting mouse position"@,
    {
        match self {
            QueryError::Unavailable => String::from_str("Error getting mouse position"),
        }
    }
}

} // verus!
