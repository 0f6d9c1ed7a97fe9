//! The terminal summary of a provider stream: the decisions that turn a provider's
//! final streaming chunk into a `Terminal`.
use vstd::prelude::*;
use crate::model::{FinishReason, Usage};
use crate::text::same_text;

verus! {

/// A metadata value: a string the bridge writes itself, or JSON the provider sent.
#[derive(Clone, Debug, PartialEq, Eq)]
pub enum MetaValue {
    Text(String),
    Json(serde_json::Value),
}

/// Provider metadata, kept as the sequence of insertions; a later insertion under the
/// same key replaces an earlier one. Its view is the resulting map.
#[derive(Clone, Debug, PartialEq, Eq)]
pub struct Metadata {
    entries: Vec<(String, MetaValue)>,
}

/// The map that a sequence of insertions builds.
pub open spec fn entries_map(entries: Seq<(String, MetaValue)>) -> Map<Seq<char>, MetaValue>
    decreases entries.len(),
{
    if entries.len() == 0 {
        Map::empty()
    } else {
        entries_map(entries.drop_last()).insert(entries.last().0@, entries.last().1)
    }
}

/// JSON entries as metadata values.
pub open spec fn json_entries(entries: Seq<(String, serde_json::Value)>) -> Seq<(String, MetaValue)> {
    entries.map_values(|p: (String, serde_json::Value)| (p.0, MetaValue::Json(p.1)))
}

impl View for Metadata {
    type V = Map<Seq<char>, MetaValue>;

    closed spec fn view(&self) -> Map<Seq<char>, MetaValue> {
        entries_map(self.entries@)
    }
}

impl Metadata {
    /// No metadata.
    pub fn new() -> (m: Metadata)
        ensures
            m@ == Map::<Seq<char>, MetaValue>::empty(),
    {
        Metadata { entries: Vec::new() }
    }

    /// Set `key` to `value`, replacing any earlier value.
    pub fn insert(&mut self, key: String, value: MetaValue)
        ensures
            final(self)@ == old(self)@.insert(key@, value),
    {
        let ghost before = self.entries@;
        self.entries.push((key, value));
        assert(self.entries@.drop_last() =~= before);
    }

    /// The insertions, oldest first; replaying them in order rebuilds the map.
    pub fn entries(&self) -> (e: &Vec<(String, MetaValue)>)
        ensures
            entries_map(e@) == self@,
    {
        &self.entries
    }

    /// The metadata that inserting `entries` in order builds.
    pub fn from_json_entries(entries: Vec<(String, serde_json::Value)>) -> (m: Metadata)
        ensures
            m@ == entries_map(json_entries(entries@)),
    {
        let mut metadata = Metadata::new();
        let ghost all = json_entries(entries@);
        let n = entries.len();
        let ghost original = entries@;
        let mut source = entries;
        let mut rest: Vec<(String, serde_json::Value)> = Vec::new();
        while source.len() > 0
            invariant
                source@.len() + rest@.len() == n,
                n == original.len(),
                forall|j: int| 0 <= j < source@.len() ==> #[trigger] source@[j] == original[j],
                forall|j: int| 0 <= j < rest@.len() ==> #[trigger] rest@[j] == original[n - 1 - j],
            decreases source@.len(),
        {
            let pair = source.pop().unwrap();
            rest.push(pair);
        }
        let mut i: usize = 0;
        while i < n
            invariant
                n == all.len(),
                n == original.len(),
                all == json_entries(original),
                i <= n,
                rest@.len() == n - i,
                forall|j: int| 0 <= j < n - i ==> #[trigger] rest@[j] == original[n - 1 - j],
                metadata@ == entries_map(all.take(i as int)),
            decreases n - i,
        {
            let (key, value) = rest.pop().unwrap();
            proof {
                assert(all.take(i as int + 1).drop_last() =~= all.take(i as int));
                assert(all.take(i as int + 1).last() == all[i as int]);
            }
            metadata.insert(key, MetaValue::Json(value));
            i = i + 1;
        }
        assert(all.take(n as int) =~= all);
        metadata
    }
}

/// The finish reasons of the provider library's own vocabulary.
#[derive(Clone, Debug, PartialEq, Eq)]
pub enum ProviderFinishReason {
    Stop,
    Length,
    ToolCalls,
    ContentFilter,
    Other(String),
}

/// What a stream reports once its final chunk is in.
#[derive(Clone, Debug, PartialEq, Eq)]
pub struct Terminal {
    pub id: Option<String>,
    pub model: Option<String>,
    pub finish_reason: Option<FinishReason>,
    pub usage: Usage,
    pub metadata: Metadata,
}

/// `other` mapped the text `text` to `reason`.
pub open spec fn maps_text<F: Fn(&str) -> FinishReason>(other: F, text: Seq<char>, reason: FinishReason) -> bool {
    exists|s: &str| s@ == text && #[trigger] call_ensures(other, (s,), reason)
}

/// The finish reason for the provider library's reason; its free-form reasons go
/// through `other` (the OpenAI vocabulary).
pub open spec fn provider_reason_maps<F: Fn(&str) -> FinishReason>(other: F, reason: ProviderFinishReason, r: FinishReason) -> bool {
    match reason {
        ProviderFinishReason::Stop => r == FinishReason::Stop,
        ProviderFinishReason::Length => r == FinishReason::Length,
        ProviderFinishReason::ToolCalls => r == FinishReason::ToolCall,
        ProviderFinishReason::ContentFilter => r == FinishReason::ContentFilter,
        ProviderFinishReason::Other(text) => maps_text(other, text@, r),
    }
}

/// The finish reason for an Anthropic stop reason; unknown ones go through `other`.
pub open spec fn anthropic_reason_maps<F: Fn(&str) -> FinishReason>(other: F, reason: Seq<char>, r: FinishReason) -> bool {
    if reason == "end_turn"@ || reason == "stop_sequence"@ {
        r == FinishReason::Stop
    } else if reason == "tool_use"@ {
        r == FinishReason::ToolCall
    } else if reason == "max_tokens"@ {
        r == FinishReason::Length
    } else {
        maps_text(other, reason, r)
    }
}

/// Map the provider library's finish reason; free-form reasons go through `other`.
pub fn provider_finish_reason<F: Fn(&str) -> FinishReason>(reason: ProviderFinishReason, other: &F) -> (r: FinishReason)
    requires
        forall|s: &str| #[trigger] call_requires(*other, (s,)),
    ensures
        provider_reason_maps(*other, reason, r),
{
    match reason {
        ProviderFinishReason::Stop => FinishReason::Stop,
        ProviderFinishReason::Length => FinishReason::Length,
        ProviderFinishReason::ToolCalls => FinishReason::ToolCall,
        ProviderFinishReason::ContentFilter => FinishReason::ContentFilter,
        ProviderFinishReason::Other(text) => {
            let s = text.as_str();
            let r = other(s);
            assert(call_ensures(*other, (s,), r));
            r
        },
    }
}

/// Map an Anthropic stop reason; reasons Anthropic does not define go through `other`.
pub fn anthropic_finish_reason<F: Fn(&str) -> FinishReason>(reason: &str, other: &F) -> (r: FinishReason)
    requires
        forall|s: &str| #[trigger] call_requires(*other, (s,)),
    ensures
        anthropic_reason_maps(*other, reason@, r),
{
    if same_text(reason, "end_turn") || same_text(reason, "stop_sequence") {
        FinishReason::Stop
    } else if same_text(reason, "tool_use") {
        FinishReason::ToolCall
    } else if same_text(reason, "max_tokens") {
        FinishReason::Length
    } else {
        let r = other(reason);
        assert(call_ensures(*other, (reason,), r));
        r
    }
}

/// The metadata of an OpenAI-style final chunk: the entries of its additional
/// parameters when they form an object, then its log-probabilities and the provider's
/// request id.
pub open spec fn openai_metadata(
    additional: Option<Seq<(String, MetaValue)>>,
    logprobs: Option<serde_json::Value>,
    provider_request_id: Option<String>,
) -> Map<Seq<char>, MetaValue> {
    let base = match additional {
        Some(entries) => entries_map(entries),
        None => Map::empty(),
    };
    let with_logprobs = match logprobs {
        Some(v) => base.insert("logprobs"@, MetaValue::Json(v)),
        None => base,
    };
    match provider_request_id {
        Some(id) => with_logprobs.insert("provider_request_id"@, MetaValue::Text(id)),
        None => with_logprobs,
    }
}

/// The terminal summary of an OpenAI-style final chunk (OpenAI and the providers that
/// share its streaming format). `additional_params` holds the entries of the chunk's
/// additional parameters when they form a JSON object.
pub fn openai_terminal<F: Fn(&str) -> FinishReason>(
    response_id: Option<String>,
    model: Option<String>,
    finish_reason: Option<ProviderFinishReason>,
    usage: Usage,
    additional_params: Option<Vec<(String, serde_json::Value)>>,
    logprobs: Option<serde_json::Value>,
    provider_request_id: Option<String>,
    other_reason: &F,
) -> (t: Terminal)
    requires
        forall|s: &str| #[trigger] call_requires(*other_reason, (s,)),
    ensures
        t.id == response_id,
        t.model == model,
        t.usage == usage,
        match finish_reason {
            None => t.finish_reason is None,
            Some(reason) => t.finish_reason matches Some(r) && provider_reason_maps(*other_reason, reason, r),
        },
        t.metadata@ == openai_metadata(
            match additional_params {
                Some(e) => Some(json_entries(e@)),
                None => None,
            },
            logprobs,
            provider_request_id,
        ),
{
    let mut metadata = Metadata::new();
    if let Some(entries) = additional_params {
        metadata = Metadata::from_json_entries(entries);
    }
    if let Some(value) = logprobs {
        metadata.insert("logprobs".to_string(), MetaValue::Json(value));
    }
    if let Some(id) = provider_request_id {
        metadata.insert("provider_request_id".to_string(), MetaValue::Text(id));
    }
    let finish = match finish_reason {
        None => None,
        Some(reason) => Some(provider_finish_reason(reason, other_reason)),
    };
    Terminal { id: response_id, model, finish_reason: finish, usage, metadata }
}

/// The metadata of an Anthropic final chunk: its stop sequence and the provider's
/// request id, as text.
pub open spec fn anthropic_metadata(stop_sequence: Option<String>, provider_request_id: Option<String>) -> Map<Seq<char>, MetaValue> {
    let base = match stop_sequence {
        Some(s) => Map::<Seq<char>, MetaValue>::empty().insert("stop_sequence"@, MetaValue::Text(s)),
        None => Map::empty(),
    };
    match provider_request_id {
        Some(id) => base.insert("provider_request_id"@, MetaValue::Text(id)),
        None => base,
    }
}

/// The terminal summary of an Anthropic final chunk.
pub fn anthropic_terminal<F: Fn(&str) -> FinishReason>(
    message_id: Option<String>,
    model: Option<String>,
    stop_reason: Option<String>,
    usage: Usage,
    stop_sequence: Option<String>,
    provider_request_id: Option<String>,
    other_reason: &F,
) -> (t: Terminal)
    requires
        forall|s: &str| #[trigger] call_requires(*other_reason, (s,)),
    ensures
        t.id == message_id,
        t.model == model,
        t.usage == usage,
        match stop_reason {
            None => t.finish_reason is None,
            Some(reason) => t.finish_reason matches Some(r) && anthropic_reason_maps(*other_reason, reason@, r),
        },
        t.metadata@ == anthropic_metadata(stop_sequence, provider_request_id),
{
    let mut metadata = Metadata::new();
    if let Some(value) = stop_sequence {
        metadata.insert("stop_sequence".to_string(), MetaValue::Text(value));
    }
    if let Some(id) = provider_request_id {
        metadata.insert("provider_request_id".to_string(), MetaValue::Text(id));
    }
    let finish = match stop_reason {
        None => None,
        Some(reason) => Some(anthropic_finish_reason(reason.as_str(), other_reason)),
    };
    Terminal { id: message_id, model, finish_reason: finish, usage, metadata }
}

/// The terminal summary of an Ollama final chunk. An empty model name means no model;
/// `metadata_entries` holds the entries of the chunk's streaming metadata when they form
/// a JSON object; the done reason goes through `other_reason` (the OpenAI vocabulary).
pub fn ollama_terminal<F: Fn(&str) -> FinishReason>(
    model: String,
    done_reason: Option<String>,
    usage: Usage,
    metadata_entries: Option<Vec<(String, serde_json::Value)>>,
    other_reason: &F,
) -> (t: Terminal)
    requires
        forall|s: &str| #[trigger] call_requires(*other_reason, (s,)),
    ensures
        t.id is None,
        model@.len() == 0 ==> t.model is None,
        model@.len() != 0 ==> t.model == Some(model),
        t.usage == usage,
        match done_reason {
            None => t.finish_reason is None,
            Some(reason) => t.finish_reason matches Some(r) && maps_text(*other_reason, reason@, r),
        },
        t.metadata@ == match metadata_entries {
            Some(e) => entries_map(json_entries(e@)),
            None => Map::empty(),
        },
{
    let metadata = match metadata_entries {
        Some(entries) => Metadata::from_json_entries(entries),
        None => Metadata::new(),
    };
    let finish = match done_reason {
        None => None,
        Some(reason) => {
            let s = reason.as_str();
            let r = other_reason(s);
            assert(call_ensures(*other_reason, (s,), r));
            Some(r)
        },
    };
    let named = if model.as_str().is_empty() {
        None
    } else {
        Some(model)
    };
    Terminal { id: None, model: named, finish_reason: finish, usage, metadata }
}

} // verus!
