//! Checking final responses against a structured-output schema, and stream control built on it.
//!
//! Preparation compiles the requested schema before any model call and reads nothing
//! from outside. A prepared check with no schema (free text or legacy JSON mode)
//! accepts every response and leaves a stream untouched.
use vstd::prelude::*;
use crate::error::{BridgeError, ErrorMetadata, StructuredOutputErrorKind};
use crate::json::{nesting_depth, nests_within, MAX_SCHEMA_DEPTH, member_view, parse_json, parse_json_unlimited, string_member, json_string_member, json_text_shape, json_text_shape_unlimited, JsonShape, ParsedJson};
use crate::model::{AssistantContent, CompletionEvent, CompletionResponse, FinishReason, OutputFormat};
use crate::schema::{accepts, compile_schema, dialect_for_uri, dialect_of_uri, schema_accepts, schema_compiles, CompiledSchema, Dialect};
use crate::laws::law_gated_stream_shape;
use crate::text::{is_blank, is_blank_text};

verus! {

/// A compiled final-response check. Its view is the schema it enforces, as the
/// schema's source text and dialect, or `None` when it enforces nothing.
pub struct OutputValidation {
    validator: Option<CompiledSchema>,
}

impl View for OutputValidation {
    type V = Option<(Seq<char>, Dialect)>;

    closed spec fn view(&self) -> Option<(Seq<char>, Dialect)> {
        match self.validator {
            None => None,
            Some(c) => Some(c@),
        }
    }
}

/// The member of a schema object that names its dialect.
pub open spec fn dialect_key() -> Seq<char> {
    "$schema"@
}

/// The dialect that a `$schema` member declares: 2020-12 when the member is absent;
/// `None` when it is not a string or names no known dialect.
pub open spec fn dialect_of_member(member: Option<Option<Seq<char>>>) -> Option<Dialect> {
    match member {
        None => Some(Dialect::Draft202012),
        Some(None) => None,
        Some(Some(uri)) => dialect_of_uri(uri),
    }
}

/// The dialect a schema document declares (see `dialect_of_member`).
pub open spec fn declared_dialect(schema: Seq<char>) -> Option<Dialect> {
    dialect_of_member(json_string_member(schema, dialect_key()))
}

/// The dialect that a `$schema` member declares, as `Value::get` found it.
pub fn dialect_from_member(member: Option<Option<String>>) -> (d: Option<Dialect>)
    ensures
        d == dialect_of_member(member_view(member)),
{
    match member {
        None => Some(Dialect::Draft202012),
        Some(Some(uri)) => dialect_for_uri(uri.as_str()),
        Some(None) => None,
    }
}

/// What preparing a check for `format` yields: `None` when the format is refused
/// (`InvalidOutputSchema`: blank name, schema nested deeper than `MAX_SCHEMA_DEPTH`,
/// schema not a JSON object, unknown dialect, or not compiled), otherwise the schema
/// the check enforces, if any.
pub open spec fn prepared_schema(format: Option<&OutputFormat>) -> Option<Option<(Seq<char>, Dialect)>> {
    match format {
        Some(OutputFormat::Structured { name, mode: _, schema }) => {
            if is_blank_text(name@) || nesting_depth(schema@) > MAX_SCHEMA_DEPTH
                || json_text_shape_unlimited(schema@) != JsonShape::Object {
                None
            } else {
                match declared_dialect(schema@) {
                    None => None,
                    Some(d) => if schema_compiles(schema@, d) {
                        Some(Some((schema@, d)))
                    } else {
                        None
                    },
                }
            }
        },
        _ => Some(None),
    }
}

pub open spec fn is_tool_call(part: AssistantContent) -> bool {
    part is ToolCall
}

pub open spec fn is_text_like(part: AssistantContent) -> bool {
    part is Text || part is ProviderData
}

/// The text of one part: a text part's text, nothing for any other part.
pub open spec fn part_text(part: AssistantContent) -> Seq<char> {
    match part {
        AssistantContent::Text(p) => p.text@,
        _ => Seq::empty(),
    }
}

/// The text parts of `content`, concatenated in order.
pub open spec fn content_text(content: Seq<AssistantContent>) -> Seq<char>
    decreases content.len(),
{
    if content.len() == 0 {
        Seq::empty()
    } else {
        content_text(content.drop_last()) + part_text(content.last())
    }
}

pub open spec fn has_tool_call(content: Seq<AssistantContent>) -> bool {
    exists|i: int| 0 <= i < content.len() && #[trigger] is_tool_call(content[i])
}

pub open spec fn only_text_parts(content: Seq<AssistantContent>) -> bool {
    forall|i: int| 0 <= i < content.len() ==> #[trigger] is_text_like(content[i])
}

/// A response stopped normally when it gives no reason or gives `Stop`.
pub open spec fn stopped_normally(reason: Option<FinishReason>) -> bool {
    reason is None || reason == Some(FinishReason::Stop)
}

/// Why `response` fails the check that enforces `schema`, or `None` when it passes.
/// The reasons are tried in this order: a tool call anywhere; an abnormal stop; a part
/// that is neither text nor provider data; blank text; text that is not JSON; JSON that
/// is not an object; an object that the schema rejects.
pub open spec fn response_failure(schema: Option<(Seq<char>, Dialect)>, response: CompletionResponse) -> Option<StructuredOutputErrorKind> {
    match schema {
        None => None,
        Some((source, dialect)) => {
            let content = response.content@;
            let text = content_text(content);
            if has_tool_call(content) {
                Some(StructuredOutputErrorKind::ToolCall)
            } else if !stopped_normally(response.finish_reason) {
                Some(StructuredOutputErrorKind::Incomplete)
            } else if !only_text_parts(content) {
                Some(StructuredOutputErrorKind::Incomplete)
            } else if is_blank_text(text) {
                Some(StructuredOutputErrorKind::MissingText)
            } else {
                text_failure(json_text_shape(text), schema_accepts(source, dialect, text))
            }
        },
    }
}

/// Why a response text fails, given its JSON shape and (for an object) whether the
/// schema accepts it.
pub open spec fn text_failure(shape: JsonShape, accepted: bool) -> Option<StructuredOutputErrorKind> {
    match shape {
        JsonShape::Malformed => Some(StructuredOutputErrorKind::InvalidJson),
        JsonShape::NotObject => Some(StructuredOutputErrorKind::NotObject),
        JsonShape::Object => if accepted {
            None
        } else {
            Some(StructuredOutputErrorKind::SchemaMismatch)
        },
    }
}

/// The verdict on a response text from its JSON shape and, for an object, the schema's
/// answer.
pub fn judge_text(shape: JsonShape, accepted: bool) -> (r: Result<(), BridgeError>)
    ensures
        r == check_result(text_failure(shape, accepted)),
{
    match shape {
        JsonShape::Malformed => failure(StructuredOutputErrorKind::InvalidJson),
        JsonShape::NotObject => failure(StructuredOutputErrorKind::NotObject),
        JsonShape::Object => if accepted {
            Ok(())
        } else {
            failure(StructuredOutputErrorKind::SchemaMismatch)
        },
    }
}

/// The result that reports a failure reason, or success.
pub open spec fn check_result(failure: Option<StructuredOutputErrorKind>) -> Result<(), BridgeError> {
    match failure {
        None => Ok(()),
        Some(kind) => Err(BridgeError::StructuredOutput { kind }),
    }
}

/// The structured-output error of the given kind.
pub fn failure(kind: StructuredOutputErrorKind) -> (r: Result<(), BridgeError>)
    ensures
        r == Err::<(), BridgeError>(BridgeError::StructuredOutput { kind }),
{
    Err(BridgeError::StructuredOutput { kind })
}

/// What a stream does next, one inner event at a time.
#[derive(Debug)]
pub enum StreamStep {
    /// Hand `item` to the consumer; when `last` is set the stream ends after it.
    Emit { item: Result<CompletionEvent, BridgeError>, last: bool },
    /// The stream has ended.
    End,
}

/// The item a gated stream hands on for one inner item: the terminal event when its
/// response passes the check (unchanged), the check's error when it does not, and any
/// other item as it came.
pub open spec fn gated_item(schema: Option<(Seq<char>, Dialect)>, event: Result<CompletionEvent, BridgeError>) -> Result<CompletionEvent, BridgeError> {
    match event {
        Ok(CompletionEvent::ResponseCompleted { response }) => match response_failure(schema, response) {
            None => event,
            Some(kind) => Err(BridgeError::StructuredOutput { kind }),
        },
        _ => event,
    }
}

/// Whether a gated stream ends after handing on its item for `event`: with a schema,
/// a failure and the terminal event end it; a preview does not.
pub open spec fn ends_after(schema: Option<(Seq<char>, Dialect)>, event: Result<CompletionEvent, BridgeError>) -> bool {
    schema is Some && (event is Err || event->Ok_0 is ResponseCompleted)
}

/// The whole of a gated stream over the inner items `inner`, when the inner stream ends
/// after them; `interrupted` is the error for an inner stream that ends before its
/// terminal event. Without a schema the inner stream is handed on as it is.
pub open spec fn gated_stream(schema: Option<(Seq<char>, Dialect)>, inner: Seq<Result<CompletionEvent, BridgeError>>, interrupted: BridgeError) -> Seq<Result<CompletionEvent, BridgeError>>
    decreases inner.len(),
{
    if schema is None {
        inner
    } else if inner.len() == 0 {
        seq![Err(interrupted)]
    } else if ends_after(schema, inner[0]) {
        seq![gated_item(schema, inner[0])]
    } else {
        seq![gated_item(schema, inner[0])] + gated_stream(schema, inner.drop_first(), interrupted)
    }
}

/// The shape of a gated stream `out` over the inner items `inner` when a schema is
/// enforced: a run of previews, exactly as they came, followed by one last item that is
/// an error or the terminal event with a response that passes the check; never more
/// than one item beyond the inner ones.
pub open spec fn gated_shape(schema: (Seq<char>, Dialect), inner: Seq<Result<CompletionEvent, BridgeError>>, out: Seq<Result<CompletionEvent, BridgeError>>) -> bool {
    &&& 1 <= out.len() <= inner.len() + 1
    &&& forall|i: int| 0 <= i < out.len() - 1 ==> {
        &&& #[trigger] out[i] == inner[i]
        &&& out[i] is Ok
        &&& !(out[i]->Ok_0 is ResponseCompleted)
    }
    &&& out.last() is Err || (out.last() matches Ok(CompletionEvent::ResponseCompleted { response })
        && response_failure(Some(schema), response) is None)
}

impl OutputValidation {
    /// Whether the check enforces a schema.
    pub fn is_enabled(&self) -> (b: bool)
        ensures
            b == (self@ is Some),
    {
        self.validator.is_some()
    }

    /// The debug text of the check, which shows whether a schema is enforced and never
    /// the schema itself.
    pub fn debug_text(&self) -> (s: String)
        ensures
            s@ == (if self@ is Some {
                "OutputValidation { enabled: true, .. }"@
            } else {
                "OutputValidation { enabled: false, .. }"@
            }),
    {
        if self.validator.is_some() {
            "OutputValidation { enabled: true, .. }".to_string()
        } else {
            "OutputValidation { enabled: false, .. }".to_string()
        }
    }

    /// Compile before invoking a model. Unknown dialects and external resources fail closed.
    pub fn prepare(format: Option<&OutputFormat>) -> (r: Result<Self, BridgeError>)
        ensures
            match prepared_schema(format) {
                None => r == Err::<Self, BridgeError>(BridgeError::InvalidOutputSchema),
                Some(schema) => r matches Ok(v) && v@ == schema,
            },
    {
        let (name, schema) = match format {
            Some(OutputFormat::Structured { name, mode: _, schema }) => (name, schema),
            _ => return Ok(OutputValidation { validator: None }),
        };
        if is_blank(name.as_str()) {
            return Err(BridgeError::InvalidOutputSchema);
        }
        if !nests_within(schema.as_str(), MAX_SCHEMA_DEPTH) {
            return Err(BridgeError::InvalidOutputSchema);
        }
        let object = match parse_json_unlimited(schema.as_str()) {
            ParsedJson::Object(o) => o,
            _ => return Err(BridgeError::InvalidOutputSchema),
        };
        let dialect = match dialect_from_member(string_member(&object, "$schema")) {
            Some(d) => d,
            None => return Err(BridgeError::InvalidOutputSchema),
        };
        match compile_schema(&object, dialect) {
            Some(compiled) => Ok(OutputValidation { validator: Some(compiled) }),
            None => Err(BridgeError::InvalidOutputSchema),
        }
    }

    /// Forward unvalidated preview events; gate the sole successful terminal event.
    /// Decides what the stream does with the next inner item (`None`: the inner stream
    /// ended); the caller stops asking after a `last` item or `End`, and so drops the
    /// inner stream on completion or failure.
    pub fn stream_step(&self, event: Option<Result<CompletionEvent, BridgeError>>, provider: &String) -> (step: StreamStep)
        ensures
            match event {
                None => if self@ is None {
                    step is End
                } else {
                    &&& step matches StreamStep::Emit { item: Err(BridgeError::StreamInterrupted { metadata }), last: true }
                    &&& metadata.provider@ == provider@
                    &&& metadata.http_status is None
                    &&& metadata.transport_kind is None
                },
                Some(e) => step == (StreamStep::Emit { item: gated_item(self@, e), last: ends_after(self@, e) }),
            },
    {
        let enabled = self.validator.is_some();
        match event {
            None => {
                if enabled {
                    StreamStep::Emit {
                        item: Err(BridgeError::StreamInterrupted { metadata: ErrorMetadata::new(provider.clone()) }),
                        last: true,
                    }
                } else {
                    StreamStep::End
                }
            },
            Some(Ok(CompletionEvent::ResponseCompleted { response })) => {
                let item = match self.validate(&response) {
                    Ok(()) => Ok(CompletionEvent::ResponseCompleted { response }),
                    Err(error) => Err(error),
                };
                StreamStep::Emit { item, last: enabled }
            },
            Some(Err(error)) => StreamStep::Emit { item: Err(error), last: enabled },
            Some(Ok(event)) => StreamStep::Emit { item: Ok(event), last: false },
        }
    }

    /// Drives `stream_step` over a finite inner stream, asking for the next item until
    /// a `last` item or `End`, and collects what it hands on: the whole gated stream.
    pub fn run_stream(&self, inner: Vec<Result<CompletionEvent, BridgeError>>, provider: &String) -> (out: Vec<Result<CompletionEvent, BridgeError>>)
        ensures
            exists|m: ErrorMetadata| {
                &&& m.provider@ == provider@
                &&& m.http_status is None
                &&& m.transport_kind is None
                &&& out@ == #[trigger] gated_stream(self@, inner@, BridgeError::StreamInterrupted { metadata: m })
            },
            self@ is None ==> out@ == inner@,
            self@ matches Some(schema) ==> gated_shape(schema, inner@, out@),
    {
        let ghost s = self@;
        let ghost all = inner@;
        let ghost mut witness = ErrorMetadata { provider: *provider, http_status: None, transport_kind: None };
        let n = inner.len();
        let mut source = inner;
        let mut rest: Vec<Result<CompletionEvent, BridgeError>> = Vec::new();
        while source.len() > 0
            invariant
                source@.len() + rest@.len() == n,
                n == all.len(),
                forall|j: int| 0 <= j < source@.len() ==> #[trigger] source@[j] == all[j],
                forall|j: int| 0 <= j < rest@.len() ==> #[trigger] rest@[j] == all[n - 1 - j],
            decreases source@.len(),
        {
            let item = source.pop().unwrap();
            rest.push(item);
        }
        let mut out: Vec<Result<CompletionEvent, BridgeError>> = Vec::new();
        let mut i: usize = 0;
        let mut done = false;
        proof {
            assert(all.skip(0) =~= all);
            assert forall|m: ErrorMetadata|
                out@ + gated_stream(s, all.skip(0), BridgeError::StreamInterrupted { metadata: m })
                    == #[trigger] gated_stream(s, all, BridgeError::StreamInterrupted { metadata: m }) by {
                let g = gated_stream(s, all, BridgeError::StreamInterrupted { metadata: m });
                assert(out@ + g =~= g);
            }
        }
        while !done
            invariant
                s == self@,
                n == all.len(),
                i <= n,
                rest@.len() == n - i,
                forall|j: int| 0 <= j < n - i ==> #[trigger] rest@[j] == all[n - 1 - j],
                witness.provider@ == provider@,
                witness.http_status is None,
                witness.transport_kind is None,
                !done ==> forall|m: ErrorMetadata|
                    out@ + gated_stream(s, all.skip(i as int), BridgeError::StreamInterrupted { metadata: m })
                        == #[trigger] gated_stream(s, all, BridgeError::StreamInterrupted { metadata: m }),
                done ==> out@ == gated_stream(s, all, BridgeError::StreamInterrupted { metadata: witness }),
            decreases 2 * (n - i) + (if done { 0int } else { 1int }),
        {
            let ghost before = out@;
            let ghost at = i;
            let next = if i < n {
                i = i + 1;
                Some(rest.pop().unwrap())
            } else {
                None
            };
            proof {
                if at < n {
                    assert(all.skip(at as int)[0] == all[at as int]);
                    assert(all.skip(at as int).drop_first() =~= all.skip(at as int + 1));
                } else {
                    assert(all.skip(at as int).len() == 0);
                }
            }
            match self.stream_step(next, provider) {
                StreamStep::Emit { item, last } => {
                    out.push(item);
                    if last {
                        done = true;
                        proof {
                            if at == n {
                                let m = choose|m: ErrorMetadata| {
                                    &&& item == Err::<CompletionEvent, BridgeError>(BridgeError::StreamInterrupted { metadata: m })
                                    &&& m.provider@ == provider@
                                    &&& m.http_status is None
                                    &&& m.transport_kind is None
                                };
                                witness = m;
                            }
                            let g = gated_stream(s, all, BridgeError::StreamInterrupted { metadata: witness });
                            assert(before + gated_stream(s, all.skip(at as int), BridgeError::StreamInterrupted { metadata: witness }) == g);
                            assert(out@ =~= g);
                        }
                    } else {
                        proof {
                            assert forall|m: ErrorMetadata|
                                out@ + gated_stream(s, all.skip(i as int), BridgeError::StreamInterrupted { metadata: m })
                                    == #[trigger] gated_stream(s, all, BridgeError::StreamInterrupted { metadata: m }) by {
                                let e = BridgeError::StreamInterrupted { metadata: m };
                                assert(before + gated_stream(s, all.skip(at as int), e) == gated_stream(s, all, e));
                                assert(out@ + gated_stream(s, all.skip(i as int), e) =~= before + gated_stream(s, all.skip(at as int), e));
                            }
                        }
                    }
                },
                StreamStep::End => {
                    done = true;
                    proof {
                        let g = gated_stream(s, all, BridgeError::StreamInterrupted { metadata: witness });
                        assert(before + gated_stream(s, all.skip(at as int), BridgeError::StreamInterrupted { metadata: witness }) == g);
                        assert(out@ =~= g);
                    }
                },
            }
        }
        proof {
            if let Some(schema) = s {
                law_gated_stream_shape(schema, all, BridgeError::StreamInterrupted { metadata: witness });
            }
        }
        out
    }

    /// Check a complete response without changing content, order, IDs, usage or metadata.
    pub fn validate(&self, response: &CompletionResponse) -> (r: Result<(), BridgeError>)
        ensures
            r == check_result(response_failure(self@, *response)),
    {
        let compiled = match &self.validator {
            None => return Ok(()),
            Some(c) => c,
        };
        let n = response.content.len();
        let mut i: usize = 0;
        while i < n
            invariant
                n == response.content@.len(),
                self@ is Some,
                i <= n,
                forall|j: int| 0 <= j < i ==> !#[trigger] is_tool_call(response.content@[j]),
            decreases n - i,
        {
            if let AssistantContent::ToolCall(_) = &response.content[i] {
                assert(is_tool_call(response.content@[i as int]));
                assert(has_tool_call(response.content@));
                return failure(StructuredOutputErrorKind::ToolCall);
            }
            i = i + 1;
        }
        assert(!has_tool_call(response.content@));
        match &response.finish_reason {
            None => {},
            Some(FinishReason::Stop) => {},
            Some(_) => return failure(StructuredOutputErrorKind::Incomplete),
        }
        let mut text = String::new();
        let mut k: usize = 0;
        while k < n
            invariant
                n == response.content@.len(),
                self@ is Some,
                !has_tool_call(response.content@),
                stopped_normally(response.finish_reason),
                k <= n,
                forall|j: int| 0 <= j < k ==> #[trigger] is_text_like(response.content@[j]),
                text@ == content_text(response.content@.take(k as int)),
            decreases n - k,
        {
            assert(response.content@.take(k as int + 1).drop_last() =~= response.content@.take(k as int));
            match &response.content[k] {
                AssistantContent::Text(part) => text.append(part.text.as_str()),
                AssistantContent::ProviderData(_) => {},
                _ => {
                    assert(!is_text_like(response.content@[k as int]));
                    assert(!only_text_parts(response.content@));
                    return failure(StructuredOutputErrorKind::Incomplete);
                },
            }
            k = k + 1;
        }
        assert(response.content@.take(n as int) =~= response.content@);
        if is_blank(text.as_str()) {
            return failure(StructuredOutputErrorKind::MissingText);
        }
        match parse_json(text.as_str()) {
            ParsedJson::Malformed => judge_text(JsonShape::Malformed, false),
            ParsedJson::NotObject => judge_text(JsonShape::NotObject, false),
            ParsedJson::Object(value) => judge_text(JsonShape::Object, accepts(compiled, &value)),
        }
    }
}

} // verus!
