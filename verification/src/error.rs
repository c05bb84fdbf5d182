//! Error taxonomy of the bridge.
//!
//! The engine reports negotiation failures through completion callbacks; the
//! bridge adds exactly one failure of its own: abandonment, the case where a
//! completion was dropped without ever being resolved (for example because
//! the session closed mid-operation). Callers match on [`SdpError`] to tell
//! "the engine refused the operation" apart from "the operation was never
//! completed".

use vstd::prelude::*;

verus! {

/// Classification of a failure reported by the native engine, mirroring the
/// engine's own error taxonomy. `NoFailure` is the engine's way of reporting
/// success through a completion callback that always carries an error value.
#[derive(Clone, Copy, PartialEq, Eq, Structural, Debug)]
pub enum RtcErrorType {
    NoFailure,
    UnsupportedOperation,
    UnsupportedParameter,
    InvalidParameter,
    InvalidRange,
    SyntaxError,
    InvalidState,
    InvalidModification,
    NetworkError,
    ResourceExhausted,
    Internal,
}

/// A failure value as the native engine reports it: a classification plus the
/// engine's own message, surfaced verbatim to the caller.
#[derive(Debug)]
pub struct RtcError {
    pub error_type: RtcErrorType,
    pub message: String,
}

impl Clone for RtcError {
    /// An equal copy: same classification, same message.
    fn clone(&self) -> (r: Self)
        ensures
            r.error_type == self.error_type,
            r.message@ == self.message@,
    {
        RtcError { error_type: self.error_type, message: self.message.clone() }
    }
}

impl RtcError {
    /// True when the engine reported success (`NoFailure`).
    pub fn ok(&self) -> (r: bool)
        ensures
            r == (self.error_type == RtcErrorType::NoFailure),
    {
        self.error_type == RtcErrorType::NoFailure
    }

    /// Builds an error of the given classification with the given message.
    pub fn new(error_type: RtcErrorType, message: String) -> (r: RtcError)
        ensures
            r.error_type == error_type,
            r.message == message,
    {
        RtcError { error_type, message }
    }
}

/// Outcome taxonomy of an asynchronous negotiation operation: either the
/// completion was dropped unresolved (`RecvError`, abandonment) or the engine
/// delivered an explicit failure (`RTCError`).
#[derive(Debug)]
pub enum SdpError {
    RecvError(String),
    RTCError(RtcError),
}

impl From<RtcError> for SdpError {
    fn from(e: RtcError) -> (r: SdpError) {
        SdpError::RTCError(e)
    }
}

impl vstd::std_specs::convert::FromSpecImpl<RtcError> for SdpError {
    open spec fn obeys_from_spec() -> bool {
        true
    }

    open spec fn from_spec(e: RtcError) -> SdpError {
        SdpError::RTCError(e)
    }
}

} // verus!
