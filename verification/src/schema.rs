//! JSON Schema dialects and compiled schemas (through the jsonschema crate).
use vstd::prelude::*;
use crate::json::{nesting_depth, JsonObject, MAX_SCHEMA_DEPTH};
use crate::text::chars_of;

verus! {

/// The JSON Schema dialects that a schema may declare with `$schema`.
#[derive(Clone, Copy, Debug, PartialEq, Eq, Structural)]
pub enum Dialect {
    Draft4,
    Draft6,
    Draft7,
    Draft201909,
    Draft202012,
}

/// `uri` with every trailing `#` removed (`str::trim_end_matches('#')`).
pub open spec fn strip_trailing_hashes(uri: Seq<char>) -> Seq<char>
    decreases uri.len(),
{
    if uri.len() > 0 && uri.last() == '#' {
        strip_trailing_hashes(uri.drop_last())
    } else {
        uri
    }
}

/// The dialect that a `$schema` URI names, trailing `#` ignored; `None` for any other URI.
pub open spec fn dialect_of_uri(uri: Seq<char>) -> Option<Dialect> {
    let u = strip_trailing_hashes(uri);
    if u == "http://json-schema.org/draft-04/schema"@ {
        Some(Dialect::Draft4)
    } else if u == "http://json-schema.org/draft-06/schema"@ {
        Some(Dialect::Draft6)
    } else if u == "http://json-schema.org/draft-07/schema"@ {
        Some(Dialect::Draft7)
    } else if u == "https://json-schema.org/draft/2019-09/schema"@ {
        Some(Dialect::Draft201909)
    } else if u == "https://json-schema.org/draft/2020-12/schema"@ {
        Some(Dialect::Draft202012)
    } else {
        None
    }
}

/// Whether the first `len` characters of `chars` spell `lit`.
fn prefix_spells(chars: &Vec<char>, len: usize, lit: &str) -> (r: bool)
    requires
        len <= chars@.len(),
    ensures
        r == (chars@.take(len as int) == lit@),
{
    let expected = chars_of(lit);
    if expected.len() != len {
        assert(chars@.take(len as int).len() != lit@.len());
        return false;
    }
    let mut i: usize = 0;
    while i < len
        invariant
            i <= len,
            len <= chars@.len(),
            expected@ == lit@,
            expected@.len() == len,
            forall|j: int| 0 <= j < i ==> chars@[j] == expected@[j],
        decreases len - i,
    {
        if chars[i] != expected[i] {
            assert(chars@.take(len as int)[i as int] != lit@[i as int]);
            return false;
        }
        i = i + 1;
    }
    assert(chars@.take(len as int) =~= lit@);
    true
}

proof fn lemma_strip_take(s: Seq<char>, end: int)
    requires
        0 <= end <= s.len(),
        forall|j: int| end <= j < s.len() ==> s[j] == '#',
    ensures
        strip_trailing_hashes(s) == strip_trailing_hashes(s.take(end)),
    decreases s.len(),
{
    if end < s.len() {
        assert(s.drop_last().take(end) =~= s.take(end));
        lemma_strip_take(s.drop_last(), end);
    } else {
        assert(s.take(end) =~= s);
    }
}

/// The dialect that a `$schema` URI names, trailing `#` ignored.
pub fn dialect_for_uri(uri: &str) -> (d: Option<Dialect>)
    ensures
        d == dialect_of_uri(uri@),
{
    let chars = chars_of(uri);
    let mut end = chars.len();
    while end > 0 && chars[end - 1] == '#'
        invariant
            end <= chars@.len(),
            chars@ == uri@,
            forall|j: int| end <= j < chars@.len() ==> chars@[j] == '#',
        decreases end,
    {
        end = end - 1;
    }
    proof {
        lemma_strip_take(chars@, end as int);
        let t = chars@.take(end as int);
        if t.len() > 0 {
            assert(t.last() == chars@[end - 1]);
        }
        assert(strip_trailing_hashes(t) == t);
    }
    if prefix_spells(&chars, end, "http://json-schema.org/draft-04/schema") {
        Some(Dialect::Draft4)
    } else if prefix_spells(&chars, end, "http://json-schema.org/draft-06/schema") {
        Some(Dialect::Draft6)
    } else if prefix_spells(&chars, end, "http://json-schema.org/draft-07/schema") {
        Some(Dialect::Draft7)
    } else if prefix_spells(&chars, end, "https://json-schema.org/draft/2019-09/schema") {
        Some(Dialect::Draft201909)
    } else if prefix_spells(&chars, end, "https://json-schema.org/draft/2020-12/schema") {
        Some(Dialect::Draft202012)
    } else {
        None
    }
}

/// A compiled `jsonschema::Validator`, held opaque: its type is generic over the
/// jsonschema crate's own `Json` trait, so it is kept behind this struct.
#[verifier::external_body]
pub struct SchemaCheck {
    validator: jsonschema::Validator,
}

/// Whether jsonschema compiles the schema document `schema` under `dialect`, with
/// format assertions off and no retrieval of external resources.
pub uninterp spec fn schema_compiles(schema: Seq<char>, dialect: Dialect) -> bool;

/// Whether the schema compiled from `schema` under `dialect` (format assertions off,
/// no retrieval) accepts the JSON document `instance`.
pub uninterp spec fn schema_accepts(schema: Seq<char>, dialect: Dialect, instance: Seq<char>) -> bool;

/// A schema compiled for one dialect; its view is the schema's source text and the dialect.
pub struct CompiledSchema {
    check: SchemaCheck,
    source: Ghost<Seq<char>>,
    dialect: Dialect,
}

impl View for CompiledSchema {
    type V = (Seq<char>, Dialect);

    closed spec fn view(&self) -> (Seq<char>, Dialect) {
        (self.source@, self.dialect)
    }
}

/// `jsonschema::options().with_draft(..).offline().should_validate_formats(false).build(..)`:
/// compiles the schema object under the dialect's draft, refusing to fetch any resource
/// that is not built in and treating `format` as an annotation. Whether it succeeds is
/// the named `schema_compiles` of the object's source text and the dialect. The compiler
/// recurses once per nesting level, so only schemas nested at most `MAX_SCHEMA_DEPTH`
/// deep are handed to it.
#[verifier::external_body]
pub fn compile_schema(schema: &JsonObject, dialect: Dialect) -> (r: Option<CompiledSchema>)
    requires
        nesting_depth(schema@) <= MAX_SCHEMA_DEPTH,
    ensures
        r is Some <==> schema_compiles(schema@, dialect),
        r matches Some(c) ==> c@ == (schema@, dialect),
{
    let draft = match dialect {
        Dialect::Draft4 => jsonschema::Draft::Draft4,
        Dialect::Draft6 => jsonschema::Draft::Draft6,
        Dialect::Draft7 => jsonschema::Draft::Draft7,
        Dialect::Draft201909 => jsonschema::Draft::Draft201909,
        Dialect::Draft202012 => jsonschema::Draft::Draft202012,
    };
    let options = jsonschema::options().with_draft(draft).offline().should_validate_formats(false);
    match options.build(&schema.value) {
        Ok(validator) => Some(CompiledSchema { check: SchemaCheck { validator }, source: Ghost(schema@), dialect }),
        Err(_) => None,
    }
}

/// `jsonschema::Validator::is_valid`: whether the compiled schema accepts the object;
/// the answer is the named `schema_accepts` of the schema's view and the object's text.
#[verifier::external_body]
pub fn accepts(schema: &CompiledSchema, instance: &JsonObject) -> (r: bool)
    ensures
        r == schema_accepts(schema@.0, schema@.1, instance@),
{
    schema.check.validator.is_valid(&instance.value)
}

} // verus!
