//! The completion data that the structured-output checks read and carry.
use vstd::prelude::*;

verus! {

/// How a structured output is obtained from the provider.
#[derive(Clone, Copy, Debug, PartialEq, Eq, Structural)]
pub enum StructuredOutputMode {
    /// The provider enforces the schema natively.
    NativeStrict,
    /// The provider is asked for a JSON object; the schema is checked on the client.
    JsonObjectValidated,
}

/// The output format requested for a completion.
#[derive(Clone, Debug, PartialEq, Eq)]
pub enum OutputFormat {
    /// Free text.
    Text,
    /// Legacy JSON mode: any JSON object, with no schema.
    JsonObject,
    /// A named JSON Schema; `schema` is the schema document as JSON text, nested to any depth.
    Structured { name: String, mode: StructuredOutputMode, schema: String },
}

/// Why the model stopped generating.
#[derive(Clone, Debug, PartialEq, Eq)]
pub enum FinishReason {
    Stop,
    Length,
    ToolCall,
    ContentFilter,
    Other(String),
}

#[derive(Clone, Debug, PartialEq, Eq)]
pub struct TextPart {
    pub text: String,
}

#[derive(Clone, Debug, PartialEq, Eq)]
pub struct ToolCallPart {
    pub id: String,
    pub name: String,
    /// The call's arguments as JSON text.
    pub arguments: String,
}

#[derive(Clone, Debug, PartialEq, Eq)]
pub struct ReasoningPart {
    pub text: String,
}

/// Provider-specific data that travels with a response.
#[derive(Clone, Debug, PartialEq, Eq)]
pub struct ProviderDataPart {
    pub provider: String,
    pub data: serde_json::Value,
}

/// One part of an assistant's answer.
#[derive(Clone, Debug, PartialEq, Eq)]
pub enum AssistantContent {
    Text(TextPart),
    ToolCall(ToolCallPart),
    Reasoning(ReasoningPart),
    ProviderData(ProviderDataPart),
}

/// Token accounting of one completion.
#[derive(Clone, Copy, Debug, Default, PartialEq, Eq)]
pub struct Usage {
    pub input_tokens: u64,
    pub output_tokens: u64,
    pub total_tokens: u64,
    pub cached_input_tokens: u64,
}

/// A complete response.
#[derive(Clone, Debug, PartialEq, Eq)]
pub struct CompletionResponse {
    pub id: Option<String>,
    pub model: Option<String>,
    pub content: Vec<AssistantContent>,
    pub finish_reason: Option<FinishReason>,
    pub usage: Usage,
    /// Provider metadata, key by key.
    pub metadata: Vec<(String, serde_json::Value)>,
}

/// One event of a completion stream.
#[derive(Clone, Debug, PartialEq, Eq)]
pub enum CompletionEvent {
    /// A preview of text.
    TextDelta { text: String },
    /// A preview of reasoning.
    ReasoningDelta { text: String },
    /// A preview of a tool call's arguments.
    ToolCallDelta { id: String, arguments: String },
    /// The terminal event, with the complete response.
    ResponseCompleted { response: CompletionResponse },
}

} // verus!
