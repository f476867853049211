//! The error taxonomy of the streaming engine.

use vstd::prelude::*;

verus! {

/// Everything that can end a streaming session (or, for
/// `MalformedResponse`, degrade it to a zero capacity).
#[derive(Clone, Copy, Debug, PartialEq, Eq, Structural)]
pub enum StreamError {
    /// The audio source could not be read or seeked.
    DecodeError,
    /// The requested start offset lies at or beyond the last frame.
    OffsetOutOfRange,
    /// Connecting to the endpoint, or reading from it, failed.
    ConnectionError,
    /// No handshake response arrived within the bounded wait.
    HandshakeTimeout,
    /// The handshake response carried no usable capacity token; the
    /// negotiated capacity falls back to zero instead of failing.
    MalformedResponse,
    /// A sample write failed during streaming.
    TransmissionError,
}

impl StreamError {
    /// A short human-readable description, for reporting a failed session.
    pub fn describe(&self) -> &'static str {
        match self {
            StreamError::DecodeError => "failed to decode the audio source",
            StreamError::OffsetOutOfRange => "start offset is beyond the total frame count",
            StreamError::ConnectionError => "connection to the endpoint failed",
            StreamError::HandshakeTimeout => "no handshake response within the bounded wait",
            StreamError::MalformedResponse => "handshake response carried no usable capacity",
            StreamError::TransmissionError => "a sample write failed during streaming",
        }
    }
}

} // verus!
