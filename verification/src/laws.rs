//! Properties of the structured-output check and of the gated stream as a whole.
use vstd::prelude::*;
use crate::error::{BridgeError, StructuredOutputErrorKind};
use crate::json::{nesting_depth, MAX_SCHEMA_DEPTH, json_string_member, json_text_shape, json_text_shape_unlimited, JsonShape};
use crate::model::{AssistantContent, CompletionEvent, CompletionResponse, FinishReason, OutputFormat, ProviderDataPart, TextPart};
use crate::schema::{dialect_of_uri, schema_accepts, schema_compiles, strip_trailing_hashes, Dialect};
use crate::structured::{content_text, gated_shape, dialect_key, ends_after, gated_item, gated_stream, has_tool_call, only_text_parts, prepared_schema, response_failure, stopped_normally};
use crate::terminal::{anthropic_metadata, anthropic_reason_maps, entries_map, maps_text, openai_metadata, provider_reason_maps, MetaValue, ProviderFinishReason};
use crate::text::is_blank_text;

verus! {

/// Formats other than a structured one (no format, free text, legacy JSON mode) are
/// prepared into a check that enforces nothing.
pub proof fn law_other_formats_enforce_nothing(format: Option<&OutputFormat>)
    requires
        !(format matches Some(OutputFormat::Structured { .. })),
    ensures
        prepared_schema(format) == Some(None::<(Seq<char>, Dialect)>),
{
}

/// A check that enforces nothing accepts every response.
pub proof fn law_no_schema_accepts_everything(response: CompletionResponse)
    ensures
        response_failure(None, response) is None,
{
}

/// A schema is refused when its name is blank.
pub proof fn law_blank_name_refused(format: &OutputFormat)
    requires
        format matches OutputFormat::Structured { name, .. } && is_blank_text(name@),
    ensures
        prepared_schema(Some(format)) is None,
{
}

/// A schema is refused when it is not a JSON object.
pub proof fn law_non_object_schema_refused(format: &OutputFormat)
    requires
        format matches OutputFormat::Structured { schema, .. } && json_text_shape_unlimited(schema@) != JsonShape::Object,
    ensures
        prepared_schema(Some(format)) is None,
{
}

/// A schema nested deeper than `MAX_SCHEMA_DEPTH` is refused before it is read.
pub proof fn law_deep_schema_refused(format: &OutputFormat)
    requires
        format matches OutputFormat::Structured { schema, .. } && nesting_depth(schema@) > MAX_SCHEMA_DEPTH,
    ensures
        prepared_schema(Some(format)) is None,
{
}

/// Unknown dialects fail closed: a `$schema` that is not a string, or that names no
/// known dialect, refuses the schema.
pub proof fn law_unknown_dialect_fails_closed(format: &OutputFormat)
    requires
        format matches OutputFormat::Structured { schema, .. } && ({
            let member = json_string_member(schema@, dialect_key());
            member == Some(None::<Seq<char>>) || (member matches Some(Some(uri)) && dialect_of_uri(uri) is None)
        }),
    ensures
        prepared_schema(Some(format)) is None,
{
}

/// A schema that declares no dialect is read as 2020-12.
pub proof fn law_default_dialect(format: &OutputFormat)
    requires
        format matches OutputFormat::Structured { schema, .. } && json_string_member(schema@, dialect_key()) is None,
    ensures
        prepared_schema(Some(format)) matches Some(Some((_, d))) ==> d == Dialect::Draft202012,
{
}

/// Trailing `#` in a `$schema` URI does not change the dialect it names.
pub proof fn law_trailing_hashes_ignored(uri: Seq<char>)
    ensures
        dialect_of_uri(uri.push('#')) == dialect_of_uri(uri),
{
    assert(uri.push('#').drop_last() =~= uri);
    assert(strip_trailing_hashes(uri.push('#')) == strip_trailing_hashes(uri));
}

/// A tool call refuses a response, whatever else it holds.
pub proof fn law_tool_call_refused(schema: (Seq<char>, Dialect), response: CompletionResponse)
    requires
        has_tool_call(response.content@),
    ensures
        response_failure(Some(schema), response) == Some(StructuredOutputErrorKind::ToolCall),
{
}

/// A response passes a schema only when it has no tool call, stopped normally, holds
/// only text and provider data, and its text is a JSON object that the schema accepts.
pub proof fn law_passing_response_is_accepted_object(schema: (Seq<char>, Dialect), response: CompletionResponse)
    requires
        response_failure(Some(schema), response) is None,
    ensures
        !has_tool_call(response.content@),
        stopped_normally(response.finish_reason),
        only_text_parts(response.content@),
        !is_blank_text(content_text(response.content@)),
        json_text_shape(content_text(response.content@)) == JsonShape::Object,
        schema_accepts(schema.0, schema.1, content_text(response.content@)),
{
}

/// Without a schema a stream is handed on unchanged.
pub proof fn law_unchecked_stream_unchanged(inner: Seq<Result<CompletionEvent, BridgeError>>, interrupted: BridgeError)
    ensures
        gated_stream(None, inner, interrupted) == inner,
{
}

/// Preview events are forwarded unchanged and never end the stream.
pub proof fn law_previews_forwarded(schema: Option<(Seq<char>, Dialect)>, event: CompletionEvent)
    requires
        !(event is ResponseCompleted),
    ensures
        gated_item(schema, Ok(event)) == Ok::<CompletionEvent, BridgeError>(event),
        !ends_after(schema, Ok(event)),
{
}

/// The terminal event is handed on only with its response unchanged, and only when the
/// response passes the check; otherwise the check's error takes its place.
pub proof fn law_terminal_event_gated(schema: Option<(Seq<char>, Dialect)>, response: CompletionResponse)
    ensures
        ({
            let item = gated_item(schema, Ok(CompletionEvent::ResponseCompleted { response }));
            match response_failure(schema, response) {
                None => item == Ok::<CompletionEvent, BridgeError>(CompletionEvent::ResponseCompleted { response }),
                Some(kind) => item == Err::<CompletionEvent, BridgeError>(BridgeError::StructuredOutput { kind }),
            }
        }),
{
}

/// With a schema, a stream hands on a run of previews, exactly as they came, followed by
/// one last item: an error, or the terminal event with a response that passes the
/// check. It never yields more than one item beyond the inner ones.
pub proof fn law_gated_stream_shape(schema: (Seq<char>, Dialect), inner: Seq<Result<CompletionEvent, BridgeError>>, interrupted: BridgeError)
    ensures
        gated_shape(schema, inner, gated_stream(Some(schema), inner, interrupted)),
    decreases inner.len(),
{
    let s = Some(schema);
    let out = gated_stream(s, inner, interrupted);
    if inner.len() == 0 {
    } else if ends_after(s, inner[0]) {
        match inner[0] {
            Ok(CompletionEvent::ResponseCompleted { response }) => {
                law_terminal_event_gated(s, response);
            },
            _ => {},
        }
    } else {
        let rest = gated_stream(s, inner.drop_first(), interrupted);
        law_gated_stream_shape(schema, inner.drop_first(), interrupted);
        assert(out == seq![gated_item(s, inner[0])] + rest);
        assert forall|i: int| 0 <= i < out.len() - 1 implies {
            &&& #[trigger] out[i] == inner[i]
            &&& out[i] is Ok
            &&& !(out[i]->Ok_0 is ResponseCompleted)
        } by {
            if i > 0 {
                assert(out[i] == rest[i - 1]);
                assert(inner.drop_first()[i - 1] == inner[i]);
            }
        }
        assert(out.last() == rest.last());
    }
}

/// The judged text of a single text part is that part's text, unchanged.
pub proof fn law_text_part_judged_as_is(part: TextPart)
    ensures
        content_text(seq![AssistantContent::Text(part)]) == part.text@,
{
    let c = seq![AssistantContent::Text(part)];
    assert(c.drop_last() =~= Seq::<AssistantContent>::empty());
    assert(content_text(Seq::<AssistantContent>::empty()) == Seq::<char>::empty());
    assert(c.last() == AssistantContent::Text(part));
    assert(Seq::<char>::empty() + part.text@ =~= part.text@);
}

/// Provider data adds nothing to the judged text.
pub proof fn law_provider_data_adds_no_text(part: ProviderDataPart)
    ensures
        content_text(seq![AssistantContent::ProviderData(part)]) == Seq::<char>::empty(),
{
    let c = seq![AssistantContent::ProviderData(part)];
    assert(c.drop_last() =~= Seq::<AssistantContent>::empty());
    assert(content_text(Seq::<AssistantContent>::empty()) == Seq::<char>::empty());
    assert(c.last() == AssistantContent::ProviderData(part));
    assert(Seq::<char>::empty() + Seq::<char>::empty() =~= Seq::<char>::empty());
}

/// The judged text of a sequence of parts is the judged text of its first parts
/// followed by that of the rest: parts are joined in order, with nothing between them.
pub proof fn law_judged_text_joins_in_order(first: Seq<AssistantContent>, rest: Seq<AssistantContent>)
    ensures
        content_text(first + rest) == content_text(first) + content_text(rest),
    decreases rest.len(),
{
    if rest.len() == 0 {
        assert(first + rest =~= first);
        assert(content_text(first) + Seq::<char>::empty() =~= content_text(first));
    } else {
        law_judged_text_joins_in_order(first, rest.drop_last());
        assert((first + rest).drop_last() =~= first + rest.drop_last());
        assert((first + rest).last() == rest.last());
        assert(content_text(first) + content_text(rest.drop_last()) + part_text_of(rest.last())
            =~= content_text(first) + (content_text(rest.drop_last()) + part_text_of(rest.last())));
    }
}

spec fn part_text_of(part: AssistantContent) -> Seq<char> {
    content_text(seq![part])
}

/// One answer split over two text parts is judged as the two texts joined: the response
/// passes exactly when that joined text is a non-blank JSON object the schema accepts,
/// and otherwise fails with the reason that the joined text gives.
pub proof fn law_two_text_parts_judged_joined(schema: (Seq<char>, Dialect), response: CompletionResponse, a: TextPart, b: TextPart)
    requires
        response.content@ == seq![AssistantContent::Text(a), AssistantContent::Text(b)],
        response.finish_reason is None || response.finish_reason == Some(FinishReason::Stop),
    ensures
        ({
            let t = a.text@ + b.text@;
            &&& (!is_blank_text(t) && json_text_shape(t) == JsonShape::Object && schema_accepts(schema.0, schema.1, t))
                ==> response_failure(Some(schema), response) is None
            &&& is_blank_text(t) ==> response_failure(Some(schema), response) == Some(StructuredOutputErrorKind::MissingText)
            &&& (!is_blank_text(t) && json_text_shape(t) == JsonShape::Malformed)
                ==> response_failure(Some(schema), response) == Some(StructuredOutputErrorKind::InvalidJson)
            &&& (!is_blank_text(t) && json_text_shape(t) == JsonShape::NotObject)
                ==> response_failure(Some(schema), response) == Some(StructuredOutputErrorKind::NotObject)
            &&& (!is_blank_text(t) && json_text_shape(t) == JsonShape::Object && !schema_accepts(schema.0, schema.1, t))
                ==> response_failure(Some(schema), response) == Some(StructuredOutputErrorKind::SchemaMismatch)
        }),
{
    let c = response.content@;
    law_text_part_judged_as_is(a);
    law_text_part_judged_as_is(b);
    law_judged_text_joins_in_order(seq![AssistantContent::Text(a)], seq![AssistantContent::Text(b)]);
    assert(seq![AssistantContent::Text(a)] + seq![AssistantContent::Text(b)] =~= c);
    assert(!has_tool_call(c)) by {
        assert forall|i: int| 0 <= i < c.len() implies !#[trigger] crate::structured::is_tool_call(c[i]) by {
            if i == 0 { assert(c[0] == AssistantContent::Text(a)); } else { assert(c[1] == AssistantContent::Text(b)); }
        }
    }
    assert(only_text_parts(c)) by {
        assert forall|i: int| 0 <= i < c.len() implies #[trigger] crate::structured::is_text_like(c[i]) by {
            if i == 0 { assert(c[0] == AssistantContent::Text(a)); } else { assert(c[1] == AssistantContent::Text(b)); }
        }
    }
}

/// A response passes a schema when it has no tool call, stopped normally, holds only
/// text and provider data, and the joined text is a non-blank JSON object the schema
/// accepts.
pub proof fn law_accepted_object_passes(schema: (Seq<char>, Dialect), response: CompletionResponse)
    requires
        !has_tool_call(response.content@),
        response.finish_reason is None || response.finish_reason == Some(FinishReason::Stop),
        only_text_parts(response.content@),
        !is_blank_text(content_text(response.content@)),
        json_text_shape(content_text(response.content@)) == JsonShape::Object,
        schema_accepts(schema.0, schema.1, content_text(response.content@)),
    ensures
        response_failure(Some(schema), response) is None,
{
}

/// A schema that declares a known dialect is enforced under that very dialect, and the
/// check it yields is one that dialect compiles.
pub proof fn law_declared_dialect_enforced(format: &OutputFormat, uri: Seq<char>, d: Dialect)
    requires
        format matches OutputFormat::Structured { schema, .. } && json_string_member(schema@, "$schema"@) == Some(Some(uri)),
        dialect_of_uri(uri) == Some(d),
    ensures
        format matches OutputFormat::Structured { schema, .. } && (prepared_schema(Some(format)) is None
            || prepared_schema(Some(format)) == Some(Some((schema@, d)))),
        prepared_schema(Some(format)) matches Some(Some((s, e))) ==> schema_compiles(s, e),
{
}

/// A usable schema is never refused: a non-blank name, a schema object within the depth
/// limit whose declared dialect is known and under which it compiles, yields a check
/// that enforces that schema under that dialect.
pub proof fn law_usable_schema_prepared(format: &OutputFormat, d: Dialect)
    requires
        format matches OutputFormat::Structured { name, schema, .. } && {
            &&& !is_blank_text(name@)
            &&& nesting_depth(schema@) <= MAX_SCHEMA_DEPTH
            &&& json_text_shape_unlimited(schema@) == JsonShape::Object
            &&& crate::structured::declared_dialect(schema@) == Some(d)
            &&& schema_compiles(schema@, d)
        },
    ensures
        format matches OutputFormat::Structured { schema, .. } && prepared_schema(Some(format)) == Some(Some((schema@, d))),
{
}

/// A response that stopped for any reason other than a normal stop is incomplete, unless
/// it carries a tool call.
pub proof fn law_abnormal_stop_incomplete(schema: (Seq<char>, Dialect), response: CompletionResponse, reason: FinishReason)
    requires
        !has_tool_call(response.content@),
        response.finish_reason == Some(reason),
        reason != FinishReason::Stop,
    ensures
        response_failure(Some(schema), response) == Some(StructuredOutputErrorKind::Incomplete),
{
}

/// A part that is neither text nor provider data (reasoning, say) makes a normally
/// stopped response incomplete, unless it carries a tool call.
pub proof fn law_other_part_incomplete(schema: (Seq<char>, Dialect), response: CompletionResponse, i: int)
    requires
        !has_tool_call(response.content@),
        response.finish_reason is None || response.finish_reason == Some(FinishReason::Stop),
        0 <= i < response.content@.len(),
        response.content@[i] is Reasoning,
    ensures
        response_failure(Some(schema), response) == Some(StructuredOutputErrorKind::Incomplete),
{
    assert(!crate::structured::is_text_like(response.content@[i]));
}

/// The five `$schema` URIs name the five dialects.
pub proof fn law_known_dialect_uris()
    ensures
        dialect_of_uri("http://json-schema.org/draft-04/schema"@) == Some(Dialect::Draft4),
        dialect_of_uri("http://json-schema.org/draft-06/schema"@) == Some(Dialect::Draft6),
        dialect_of_uri("http://json-schema.org/draft-07/schema"@) == Some(Dialect::Draft7),
        dialect_of_uri("https://json-schema.org/draft/2019-09/schema"@) == Some(Dialect::Draft201909),
        dialect_of_uri("https://json-schema.org/draft/2020-12/schema"@) == Some(Dialect::Draft202012),
{
    reveal_strlit("http://json-schema.org/draft-04/schema");
    reveal_strlit("http://json-schema.org/draft-06/schema");
    reveal_strlit("http://json-schema.org/draft-07/schema");
    reveal_strlit("https://json-schema.org/draft/2019-09/schema");
    reveal_strlit("https://json-schema.org/draft/2020-12/schema");
    let d4 = "http://json-schema.org/draft-04/schema"@;
    let d6 = "http://json-schema.org/draft-06/schema"@;
    let d7 = "http://json-schema.org/draft-07/schema"@;
    let d19 = "https://json-schema.org/draft/2019-09/schema"@;
    let d20 = "https://json-schema.org/draft/2020-12/schema"@;
    assert(d4.last() == 'a' && d6.last() == 'a' && d7.last() == 'a' && d19.last() == 'a' && d20.last() == 'a');
    assert(strip_trailing_hashes(d4) == d4);
    assert(strip_trailing_hashes(d6) == d6);
    assert(strip_trailing_hashes(d7) == d7);
    assert(strip_trailing_hashes(d19) == d19);
    assert(strip_trailing_hashes(d20) == d20);
    assert(d6[30] != d4[30]);
    assert(d7[30] != d4[30] && d7[30] != d6[30]);
    assert(d19.len() != d4.len());
    assert(d20.len() != d4.len() && d20[32] != d19[32]);
}

/// An inner error is handed on unchanged, whatever the schema, and with a schema it ends
/// the stream.
pub proof fn law_inner_errors_unchanged(schema: Option<(Seq<char>, Dialect)>, error: BridgeError)
    ensures
        gated_item(schema, Err(error)) == Err::<CompletionEvent, BridgeError>(error),
        schema is Some ==> ends_after(schema, Err::<CompletionEvent, BridgeError>(error)),
        schema is None ==> !ends_after(schema, Err::<CompletionEvent, BridgeError>(error)),
{
}

/// The provider's request id is always recorded, as text, whatever else the final chunk
/// carries; log-probabilities are recorded whenever present; every other entry is the
/// additional parameters' entry under that key.
pub proof fn law_openai_metadata_records(additional: Option<Seq<(String, MetaValue)>>, logprobs: Option<serde_json::Value>, request_id: Option<String>, key: Seq<char>)
    ensures
        request_id matches Some(q) ==> openai_metadata(additional, logprobs, request_id).contains_key("provider_request_id"@)
            && openai_metadata(additional, logprobs, request_id)["provider_request_id"@] == MetaValue::Text(q),
        logprobs matches Some(v) ==> openai_metadata(additional, logprobs, None).contains_key("logprobs"@)
            && openai_metadata(additional, logprobs, None)["logprobs"@] == MetaValue::Json(v),
        (key != "logprobs"@ && key != "provider_request_id"@) ==>
            openai_metadata(additional, logprobs, request_id).contains_key(key) == (additional is Some && entries_map(additional->0).contains_key(key)),
        (key != "logprobs"@ && key != "provider_request_id"@ && additional is Some && entries_map(additional->0).contains_key(key)) ==>
            openai_metadata(additional, logprobs, request_id)[key] == entries_map(additional->0)[key],
{
    reveal_strlit("logprobs");
    reveal_strlit("provider_request_id");
    assert("logprobs"@ != "provider_request_id"@) by {
        assert("logprobs"@.len() != "provider_request_id"@.len());
    }
}

/// An Anthropic final chunk records its stop sequence and request id, as text, and
/// nothing else.
pub proof fn law_anthropic_metadata_records(stop_sequence: Option<String>, request_id: Option<String>, key: Seq<char>)
    ensures
        stop_sequence matches Some(s) ==> anthropic_metadata(stop_sequence, None)["stop_sequence"@] == MetaValue::Text(s),
        request_id matches Some(q) ==> anthropic_metadata(stop_sequence, request_id)["provider_request_id"@] == MetaValue::Text(q),
        anthropic_metadata(stop_sequence, request_id).contains_key(key) ==
            ((key == "stop_sequence"@ && stop_sequence is Some) || (key == "provider_request_id"@ && request_id is Some)),
{
}

/// Inserting into metadata makes the key hold the new value; other keys keep theirs.
pub proof fn law_later_insertion_wins(entries: Seq<(String, MetaValue)>, key: String, value: MetaValue, other: Seq<char>)
    ensures
        entries_map(entries.push((key, value)))[key@] == value,
        entries_map(entries.push((key, value))).contains_key(key@),
        other != key@ ==> entries_map(entries.push((key, value))).contains_key(other) == entries_map(entries).contains_key(other),
        other != key@ ==> entries_map(entries.push((key, value)))[other] == entries_map(entries)[other],
{
    assert(entries.push((key, value)).drop_last() =~= entries);
}

/// Only `end_turn` and `stop_sequence` are a normal stop, `tool_use` a tool call and
/// `max_tokens` a length stop; every other Anthropic reason is mapped by the OpenAI
/// vocabulary alone.
pub proof fn law_anthropic_reasons<F: Fn(&str) -> FinishReason>(other: F, reason: Seq<char>, r: FinishReason)
    ensures
        anthropic_reason_maps(other, "end_turn"@, r) == (r == FinishReason::Stop),
        anthropic_reason_maps(other, "stop_sequence"@, r) == (r == FinishReason::Stop),
        anthropic_reason_maps(other, "tool_use"@, r) == (r == FinishReason::ToolCall),
        anthropic_reason_maps(other, "max_tokens"@, r) == (r == FinishReason::Length),
        (reason != "end_turn"@ && reason != "stop_sequence"@ && reason != "tool_use"@ && reason != "max_tokens"@)
            ==> anthropic_reason_maps(other, reason, r) == maps_text(other, reason, r),
{
    reveal_strlit("end_turn");
    reveal_strlit("stop_sequence");
    reveal_strlit("tool_use");
    reveal_strlit("max_tokens");
    assert("stop_sequence"@ != "end_turn"@) by { assert("stop_sequence"@.len() != "end_turn"@.len()); }
    assert("tool_use"@ != "end_turn"@) by { assert("tool_use"@[0] != "end_turn"@[0]); }
    assert("tool_use"@ != "stop_sequence"@) by { assert("tool_use"@.len() != "stop_sequence"@.len()); }
    assert("max_tokens"@ != "end_turn"@) by { assert("max_tokens"@.len() != "end_turn"@.len()); }
    assert("max_tokens"@ != "stop_sequence"@) by { assert("max_tokens"@.len() != "stop_sequence"@.len()); }
    assert("max_tokens"@ != "tool_use"@) by { assert("max_tokens"@.len() != "tool_use"@.len()); }
}

/// The provider library's fixed reasons map one to one; its free-form reasons are mapped
/// by the OpenAI vocabulary alone.
pub proof fn law_provider_reasons<F: Fn(&str) -> FinishReason>(other: F, text: String, r: FinishReason)
    ensures
        provider_reason_maps(other, ProviderFinishReason::Stop, r) == (r == FinishReason::Stop),
        provider_reason_maps(other, ProviderFinishReason::Length, r) == (r == FinishReason::Length),
        provider_reason_maps(other, ProviderFinishReason::ToolCalls, r) == (r == FinishReason::ToolCall),
        provider_reason_maps(other, ProviderFinishReason::ContentFilter, r) == (r == FinishReason::ContentFilter),
        provider_reason_maps(other, ProviderFinishReason::Other(text), r) == maps_text(other, text@, r),
{
}

} // verus!
