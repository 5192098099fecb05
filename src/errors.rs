//! The failures that decoding a datagram can meet.
use vstd::prelude::*;

verus! {

/// Which step of decoding a datagram failed.
#[derive(Debug, Clone, Copy, PartialEq, Eq, Structural)]
pub enum TelemetryErrorKind {
    /// The datagram is shorter than the packet header.
    MalformedHeader,
    /// The datagram is shorter than the layout its packet id selects.
    DecodeError,
    /// The packet id names no known category.
    UnroutableCategory,
}

/// Recording telemetry has failed on one datagram.
#[derive(Debug, Clone, Copy, PartialEq, Eq, Structural)]
pub struct TelemetryError {
    pub kind: TelemetryErrorKind,
}

impl TelemetryError {
    pub fn new(kind: TelemetryErrorKind) -> (r: TelemetryError)
        ensures
            r.kind == kind,
    {
        TelemetryError { kind }
    }
}

} // verus!
