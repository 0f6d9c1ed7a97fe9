use armillae_structured::{
    failure, AssistantContent, BridgeError, CompletionEvent, CompletionResponse, FinishReason,
    OutputFormat, OutputValidation, ProviderDataPart, ReasoningPart, StreamStep,
    StructuredOutputErrorKind, StructuredOutputMode, TextPart, ToolCallPart, Usage,
};

const ANSWER_SCHEMA: &str = r#"{"type":"object","properties":{"answer":{"type":"string","enum":["armillae"]}},"required":["answer"],"additionalProperties":false}"#;

fn structured(name: &str, schema: &str) -> OutputFormat {
    OutputFormat::Structured {
        name: name.to_string(),
        mode: StructuredOutputMode::JsonObjectValidated,
        schema: schema.to_string(),
    }
}

fn prepared(schema: &str) -> OutputValidation {
    OutputValidation::prepare(Some(&structured("answer", schema))).expect("schema compiles")
}

fn text(s: &str) -> AssistantContent {
    AssistantContent::Text(TextPart { text: s.to_string() })
}

fn response(content: Vec<AssistantContent>, finish_reason: Option<FinishReason>) -> CompletionResponse {
    CompletionResponse {
        id: Some("resp-1".to_string()),
        model: Some("test-model".to_string()),
        content,
        finish_reason,
        usage: Usage { input_tokens: 3, output_tokens: 5, total_tokens: 8, cached_input_tokens: 0 },
        metadata: vec![("k".to_string(), serde_json::Value::Bool(true))],
    }
}

fn kind(r: Result<(), BridgeError>) -> StructuredOutputErrorKind {
    match r {
        Err(BridgeError::StructuredOutput { kind }) => kind,
        other => panic!("unexpected {other:?}"),
    }
}

#[test]
fn prepare_without_structured_format_enforces_nothing() {
    for format in [None, Some(OutputFormat::Text), Some(OutputFormat::JsonObject)] {
        let v = OutputValidation::prepare(format.as_ref()).unwrap();
        assert!(!v.is_enabled());
        let r = response(vec![text("not json at all")], Some(FinishReason::Length));
        assert_eq!(v.validate(&r), Ok(()));
    }
}

#[test]
fn prepare_accepts_default_and_declared_dialects() {
    assert!(prepared(ANSWER_SCHEMA).is_enabled());
    for uri in [
        "http://json-schema.org/draft-04/schema#",
        "http://json-schema.org/draft-06/schema#",
        "http://json-schema.org/draft-07/schema",
        "https://json-schema.org/draft/2019-09/schema##",
        "https://json-schema.org/draft/2020-12/schema",
    ] {
        let schema = format!(r#"{{"$schema":"{uri}","type":"object"}}"#);
        assert!(prepared(&schema).is_enabled(), "{uri}");
    }
}

#[test]
fn prepare_refuses_bad_schemas() {
    let cases = [
        ("answer", r#"{"$schema":"http://json-schema.org/draft-03/schema#","type":"object"}"#),
        ("answer", r#"{"$schema":7,"type":"object"}"#),
        ("answer", r#"[{"type":"object"}]"#),
        ("answer", r#"true"#),
        ("answer", r#"{"type":"object""#),
        ("answer", r#"{"type":5}"#),
        ("answer", r#"{"$ref":"https://example.com/schema.json"}"#),
        ("", ANSWER_SCHEMA),
        (" \t\n", ANSWER_SCHEMA),
    ];
    for (name, schema) in cases {
        let r = OutputValidation::prepare(Some(&structured(name, schema)));
        assert!(matches!(r, Err(BridgeError::InvalidOutputSchema)), "{name:?} {schema}");
    }
}

#[test]
fn validate_accepts_matching_object() {
    let v = prepared(ANSWER_SCHEMA);
    let r = response(vec![text(r#"{"answer":"armillae"}"#)], Some(FinishReason::Stop));
    assert_eq!(v.validate(&r), Ok(()));
    let r = response(vec![text(r#"{"answer":"armillae"}"#)], None);
    assert_eq!(v.validate(&r), Ok(()));
}

#[test]
fn validate_joins_text_parts_and_skips_provider_data() {
    let v = prepared(ANSWER_SCHEMA);
    let data = AssistantContent::ProviderData(ProviderDataPart {
        provider: "openai".to_string(),
        data: serde_json::Value::Null,
    });
    let r = response(vec![text(r#"{"answer":"#), data, text(r#""armillae"}"#)], None);
    assert_eq!(v.validate(&r), Ok(()));
}

#[test]
fn validate_reports_each_failure() {
    let v = prepared(ANSWER_SCHEMA);
    let call = AssistantContent::ToolCall(ToolCallPart {
        id: "c1".to_string(),
        name: "f".to_string(),
        arguments: "{}".to_string(),
    });
    let reasoning = AssistantContent::Reasoning(ReasoningPart { text: "hm".to_string() });
    let ok = r#"{"answer":"armillae"}"#;
    let cases = [
        (response(vec![text(ok), call.clone()], Some(FinishReason::Length)), StructuredOutputErrorKind::ToolCall),
        (response(vec![text(ok)], Some(FinishReason::Length)), StructuredOutputErrorKind::Incomplete),
        (response(vec![text(ok)], Some(FinishReason::Other("weird".to_string()))), StructuredOutputErrorKind::Incomplete),
        (response(vec![reasoning, text(ok)], None), StructuredOutputErrorKind::Incomplete),
        (response(vec![], None), StructuredOutputErrorKind::MissingText),
        (response(vec![text(" \n\t\u{3000}")], None), StructuredOutputErrorKind::MissingText),
        (response(vec![text("answer: armillae")], None), StructuredOutputErrorKind::InvalidJson),
        (response(vec![text(r#"["armillae"]"#)], None), StructuredOutputErrorKind::NotObject),
        (response(vec![text(r#""armillae""#)], None), StructuredOutputErrorKind::NotObject),
        (response(vec![text(r#"{"answer":"other"}"#)], None), StructuredOutputErrorKind::SchemaMismatch),
        (response(vec![text(r#"{"answer":"armillae","extra":1}"#)], None), StructuredOutputErrorKind::SchemaMismatch),
    ];
    for (r, expected) in cases {
        assert_eq!(kind(v.validate(&r)), expected, "{r:?}");
    }
}

#[test]
fn formats_are_not_asserted() {
    let v = prepared(r#"{"type":"object","properties":{"d":{"type":"string","format":"date"}}}"#);
    let r = response(vec![text(r#"{"d":"not a date"}"#)], None);
    assert_eq!(v.validate(&r), Ok(()));
}

#[test]
fn failure_builds_structured_error() {
    assert_eq!(
        failure(StructuredOutputErrorKind::NotObject),
        Err(BridgeError::StructuredOutput { kind: StructuredOutputErrorKind::NotObject })
    );
}

fn completed(r: CompletionResponse) -> Option<Result<CompletionEvent, BridgeError>> {
    Some(Ok(CompletionEvent::ResponseCompleted { response: r }))
}

#[test]
fn stream_forwards_previews_and_gates_terminal() {
    let v = prepared(ANSWER_SCHEMA);
    let provider = "openai".to_string();
    let delta = CompletionEvent::TextDelta { text: "{".to_string() };
    match v.stream_step(Some(Ok(delta.clone())), &provider) {
        StreamStep::Emit { item: Ok(e), last: false } => assert_eq!(e, delta),
        other => panic!("{other:?}"),
    }
    let good = response(vec![text(r#"{"answer":"armillae"}"#)], None);
    match v.stream_step(completed(good.clone()), &provider) {
        StreamStep::Emit { item: Ok(CompletionEvent::ResponseCompleted { response }), last: true } => {
            assert_eq!(response, good)
        }
        other => panic!("{other:?}"),
    }
    let bad = response(vec![text("[]")], None);
    match v.stream_step(completed(bad), &provider) {
        StreamStep::Emit { item: Err(BridgeError::StructuredOutput { kind }), last: true } => {
            assert_eq!(kind, StructuredOutputErrorKind::NotObject)
        }
        other => panic!("{other:?}"),
    }
}

#[test]
fn stream_failures_and_early_end_terminate() {
    let v = prepared(ANSWER_SCHEMA);
    let provider = "anthropic".to_string();
    match v.stream_step(Some(Err(BridgeError::InvalidOutputSchema)), &provider) {
        StreamStep::Emit { item: Err(BridgeError::InvalidOutputSchema), last: true } => {}
        other => panic!("{other:?}"),
    }
    match v.stream_step(None, &provider) {
        StreamStep::Emit { item: Err(BridgeError::StreamInterrupted { metadata }), last: true } => {
            assert_eq!(metadata.provider, "anthropic");
            assert_eq!(metadata.http_status, None);
            assert_eq!(metadata.transport_kind, None);
        }
        other => panic!("{other:?}"),
    }
}

#[test]
fn unchecked_stream_passes_everything() {
    let v = OutputValidation::prepare(None).unwrap();
    let provider = "ollama".to_string();
    let bad = response(vec![text("[]")], Some(FinishReason::Length));
    match v.stream_step(completed(bad.clone()), &provider) {
        StreamStep::Emit { item: Ok(CompletionEvent::ResponseCompleted { response }), last: false } => {
            assert_eq!(response, bad)
        }
        other => panic!("{other:?}"),
    }
    match v.stream_step(Some(Err(BridgeError::InvalidOutputSchema)), &provider) {
        StreamStep::Emit { item: Err(BridgeError::InvalidOutputSchema), last: false } => {}
        other => panic!("{other:?}"),
    }
    assert!(matches!(v.stream_step(None, &provider), StreamStep::End));
}

fn run(v: &OutputValidation, inner: Vec<Result<CompletionEvent, BridgeError>>) -> Vec<Result<CompletionEvent, BridgeError>> {
    v.run_stream(inner, &"openai".to_string())
}

#[test]
fn gated_stream_ends_at_first_terminal() {
    let v = prepared(ANSWER_SCHEMA);
    let good = response(vec![text(r#"{"answer":"armillae"}"#)], None);
    let delta = Ok(CompletionEvent::TextDelta { text: "x".to_string() });
    let out = run(
        &v,
        vec![delta.clone(), delta.clone(), completed(good.clone()).unwrap(), delta.clone()],
    );
    assert_eq!(out.len(), 3);
    assert_eq!(out[2], Ok(CompletionEvent::ResponseCompleted { response: good }));
    let out = run(&v, vec![delta.clone()]);
    assert_eq!(out.len(), 2);
    assert!(matches!(out[1], Err(BridgeError::StreamInterrupted { .. })));
}

#[test]
fn unchecked_run_is_the_inner_stream() {
    let v = OutputValidation::prepare(None).unwrap();
    let delta = Ok(CompletionEvent::TextDelta { text: "x".to_string() });
    let inner = vec![delta.clone(), Err(BridgeError::InvalidOutputSchema), delta.clone()];
    assert_eq!(run(&v, inner.clone()), inner);
    assert_eq!(run(&v, vec![]), vec![]);
}

#[test]
fn checked_run_stops_at_failure() {
    let v = prepared(ANSWER_SCHEMA);
    let delta = Ok(CompletionEvent::TextDelta { text: "x".to_string() });
    let out = run(&v, vec![delta.clone(), Err(BridgeError::InvalidOutputSchema), delta.clone()]);
    assert_eq!(out, vec![delta.clone(), Err(BridgeError::InvalidOutputSchema)]);
    let bad = response(vec![text("{}")], None);
    let out = run(&v, vec![completed(bad).unwrap(), delta.clone()]);
    assert_eq!(out, vec![Err(BridgeError::StructuredOutput { kind: StructuredOutputErrorKind::SchemaMismatch })]);
    let out = run(&v, vec![]);
    match &out[..] {
        [Err(BridgeError::StreamInterrupted { metadata })] => assert_eq!(metadata.provider, "openai"),
        other => panic!("{other:?}"),
    }
}

#[test]
fn debug_text_hides_schema() {
    assert_eq!(prepared(ANSWER_SCHEMA).debug_text(), "OutputValidation { enabled: true, .. }");
    assert_eq!(
        OutputValidation::prepare(None).unwrap().debug_text(),
        "OutputValidation { enabled: false, .. }"
    );
}

fn nested_not(levels: usize) -> String {
    format!("{}{}{}", r#"{"not":"#.repeat(levels), r#"{"type":"object"}"#, "}".repeat(levels))
}

#[test]
fn deeply_nested_schema_compiles() {
    // 511 `not` levels around the innermost object: 512 levels in all.
    let v = prepared(&nested_not(511));
    assert!(v.is_enabled());
    assert_eq!(v.validate(&response(vec![text(r#"{"a":1}"#)], None)), Err(BridgeError::StructuredOutput { kind: StructuredOutputErrorKind::SchemaMismatch }));
    let v = prepared(&nested_not(510));
    assert_eq!(v.validate(&response(vec![text(r#"{"a":1}"#)], None)), Ok(()));
    assert_eq!(
        v.validate(&response(vec![text(&format!("{}1{}", "[".repeat(200), "]".repeat(200)))], None)),
        Err(BridgeError::StructuredOutput { kind: StructuredOutputErrorKind::InvalidJson })
    );
}

#[test]
fn too_deep_schema_is_refused() {
    for levels in [512, 100_000] {
        let r = OutputValidation::prepare(Some(&structured("answer", &nested_not(levels))));
        assert!(matches!(r, Err(BridgeError::InvalidOutputSchema)), "{levels}");
    }
    let unclosed = "[".repeat(1_000_000);
    let r = OutputValidation::prepare(Some(&structured("answer", &unclosed)));
    assert!(matches!(r, Err(BridgeError::InvalidOutputSchema)));
}
