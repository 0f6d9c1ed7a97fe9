//! Errors that the structured-output checks report.
use vstd::prelude::*;

verus! {

/// Why a final response failed its structured-output check.
#[derive(Clone, Copy, Debug, PartialEq, Eq, Structural)]
pub enum StructuredOutputErrorKind {
    /// The response carries a tool call instead of a structured answer.
    ToolCall,
    /// The response stopped for another reason than a normal stop, or holds parts other than text.
    Incomplete,
    /// The response holds no text beyond white space.
    MissingText,
    /// The response text is not JSON.
    InvalidJson,
    /// The response text is JSON, but not a JSON object.
    NotObject,
    /// The response object does not satisfy the schema.
    SchemaMismatch,
}

/// Classification of a transport failure.
#[derive(Clone, Copy, Debug, PartialEq, Eq, Structural)]
pub enum TransportErrorKind {
    Connect,
    Timeout,
    Redirect,
    Other,
}

/// What is known about the provider call that failed.
#[derive(Clone, Debug, PartialEq, Eq)]
pub struct ErrorMetadata {
    pub provider: String,
    pub http_status: Option<u16>,
    pub transport_kind: Option<TransportErrorKind>,
}

impl ErrorMetadata {
    /// Metadata that names the provider and nothing else.
    pub fn new(provider: String) -> (m: ErrorMetadata)
        ensures
            m.provider == provider,
            m.http_status is None,
            m.transport_kind is None,
    {
        ErrorMetadata { provider, http_status: None, transport_kind: None }
    }
}

/// Errors of a completion bridge.
#[derive(Clone, Debug, PartialEq, Eq)]
pub enum BridgeError {
    /// The requested output schema is unusable: blank name, not a JSON object,
    /// unknown dialect, or rejected by the schema compiler.
    InvalidOutputSchema,
    /// A final response failed its structured-output check.
    StructuredOutput { kind: StructuredOutputErrorKind },
    /// The stream ended before its terminal event.
    StreamInterrupted { metadata: ErrorMetadata },
    /// The provider answered with an error.
    ProviderRejected { metadata: ErrorMetadata, message: String },
    /// The transport failed before an answer arrived.
    Transport { metadata: ErrorMetadata },
    /// The provider or mode cannot serve the request.
    UnsupportedCapability { capability: String },
}

} // verus!
