use armillae_structured::terminal::{anthropic_terminal, ollama_terminal, openai_terminal};
use armillae_structured::{FinishReason, MetaValue, Metadata, ProviderFinishReason, Usage};

fn openai_vocabulary(reason: &str) -> FinishReason {
    match reason {
        "stop" => FinishReason::Stop,
        "length" => FinishReason::Length,
        other => FinishReason::Other(other.to_string()),
    }
}

fn usage() -> Usage {
    Usage { input_tokens: 1, output_tokens: 2, total_tokens: 3, cached_input_tokens: 0 }
}

fn lookup<'a>(m: &'a Metadata, key: &str) -> Option<&'a MetaValue> {
    m.entries().iter().rev().find(|(k, _)| k == key).map(|(_, v)| v)
}

#[test]
fn metadata_insert_replaces() {
    let mut m = Metadata::new();
    m.insert("a".to_string(), MetaValue::Text("1".to_string()));
    m.insert("a".to_string(), MetaValue::Text("2".to_string()));
    assert_eq!(lookup(&m, "a"), Some(&MetaValue::Text("2".to_string())));
    assert_eq!(lookup(&m, "b"), None);
}

#[test]
fn openai_terminal_collects_metadata() {
    let params = vec![
        ("service_tier".to_string(), serde_json::Value::String("default".to_string())),
        ("logprobs".to_string(), serde_json::Value::Null),
    ];
    let t = openai_terminal(
        Some("id-1".to_string()),
        Some("gpt".to_string()),
        Some(ProviderFinishReason::ToolCalls),
        usage(),
        Some(params),
        Some(serde_json::Value::Bool(true)),
        Some("req-9".to_string()),
        &openai_vocabulary,
    );
    assert_eq!(t.id.as_deref(), Some("id-1"));
    assert_eq!(t.model.as_deref(), Some("gpt"));
    assert_eq!(t.finish_reason, Some(FinishReason::ToolCall));
    assert_eq!(t.usage, usage());
    assert_eq!(lookup(&t.metadata, "service_tier"), Some(&MetaValue::Json(serde_json::Value::String("default".to_string()))));
    assert_eq!(lookup(&t.metadata, "logprobs"), Some(&MetaValue::Json(serde_json::Value::Bool(true))));
    assert_eq!(lookup(&t.metadata, "provider_request_id"), Some(&MetaValue::Text("req-9".to_string())));
}

#[test]
fn openai_terminal_maps_reasons() {
    let cases = [
        (ProviderFinishReason::Stop, FinishReason::Stop),
        (ProviderFinishReason::Length, FinishReason::Length),
        (ProviderFinishReason::ContentFilter, FinishReason::ContentFilter),
        (ProviderFinishReason::Other("stop".to_string()), FinishReason::Stop),
        (ProviderFinishReason::Other("odd".to_string()), FinishReason::Other("odd".to_string())),
    ];
    for (reason, expected) in cases {
        let t = openai_terminal(None, None, Some(reason), usage(), None, None, None, &openai_vocabulary);
        assert_eq!(t.finish_reason, Some(expected));
        assert!(t.metadata.entries().is_empty());
    }
}

#[test]
fn anthropic_terminal_maps_stop_reasons() {
    let cases = [
        ("end_turn", FinishReason::Stop),
        ("stop_sequence", FinishReason::Stop),
        ("tool_use", FinishReason::ToolCall),
        ("max_tokens", FinishReason::Length),
        ("length", FinishReason::Length),
        ("refusal", FinishReason::Other("refusal".to_string())),
    ];
    for (reason, expected) in cases {
        let t = anthropic_terminal(
            Some("msg".to_string()),
            None,
            Some(reason.to_string()),
            usage(),
            Some("\n\nHuman:".to_string()),
            None,
            &openai_vocabulary,
        );
        assert_eq!(t.finish_reason, Some(expected), "{reason}");
        assert_eq!(lookup(&t.metadata, "stop_sequence"), Some(&MetaValue::Text("\n\nHuman:".to_string())));
        assert_eq!(lookup(&t.metadata, "provider_request_id"), None);
    }
}

#[test]
fn ollama_terminal_drops_empty_model() {
    let t = ollama_terminal(String::new(), Some("stop".to_string()), usage(), None, &openai_vocabulary);
    assert_eq!(t.model, None);
    assert_eq!(t.id, None);
    assert_eq!(t.finish_reason, Some(FinishReason::Stop));
    let t = ollama_terminal(
        "llama3".to_string(),
        None,
        usage(),
        Some(vec![("eval_count".to_string(), serde_json::Value::from(12u64))]),
        &openai_vocabulary,
    );
    assert_eq!(t.model.as_deref(), Some("llama3"));
    assert_eq!(t.finish_reason, None);
    assert_eq!(lookup(&t.metadata, "eval_count"), Some(&MetaValue::Json(serde_json::Value::from(12u64))));
}
