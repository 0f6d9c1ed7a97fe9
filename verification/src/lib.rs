//! Structured-output gating for LLM completion responses: compiled JSON Schema
//! checks of final responses, the decisions that gate a completion stream, and the
//! terminal summary of a provider stream.

pub mod error;
pub mod json;
pub mod laws;
pub mod model;
pub mod schema;
pub mod structured;
pub mod terminal;
pub mod text;

pub use error::{BridgeError, ErrorMetadata, StructuredOutputErrorKind, TransportErrorKind};
pub use model::{
    AssistantContent, CompletionEvent, CompletionResponse, FinishReason, OutputFormat,
    ProviderDataPart, ReasoningPart, StructuredOutputMode, TextPart, ToolCallPart, Usage,
};
pub use schema::Dialect;
pub use structured::{failure, OutputValidation, StreamStep};
pub use terminal::{MetaValue, Metadata, ProviderFinishReason, Terminal};
