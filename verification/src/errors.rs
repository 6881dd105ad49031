//! The failure taxonomy of the pipeline. Every failure is surfaced, never
//! retried and never replaced by a default.

use vstd::prelude::*;

verus! {

/// Why a plan generation or an upload failed.
#[derive(Debug, Clone)]
pub enum CoreError {
    /// A required credential or identifier is absent from the configuration.
    ConfigError(String),
    /// The network transport failed, or a response body could not be read.
    TransportError(String),
    /// An external service answered with a non-success status.
    UpstreamError { status: u16, message: String },
    /// The model's completion content is missing or is not valid JSON.
    ParseError(String),
    /// The completion parsed, but does not match the workout shape.
    SchemaError(String),
}

/// The human-readable text a failure carries.
pub open spec fn spec_error_message(e: CoreError) -> Seq<char> {
    match e {
        CoreError::ConfigError(m) => m@,
        CoreError::TransportError(m) => m@,
        CoreError::UpstreamError { status, message } => message@,
        CoreError::ParseError(m) => m@,
        CoreError::SchemaError(m) => m@,
    }
}

impl CoreError {
    /// The message text of this failure, for diagnostics and for the
    /// boundary layer's generic failure responses.
    pub fn message(&self) -> (r: String)
        ensures
            r@ == spec_error_message(*self),
    {
        match self {
            CoreError::ConfigError(m) => m.clone(),
            CoreError::TransportError(m) => m.clone(),
            CoreError::UpstreamError { status, message } => message.clone(),
            CoreError::ParseError(m) => m.clone(),
            CoreError::SchemaError(m) => m.clone(),
        }
    }
}

} // verus!
