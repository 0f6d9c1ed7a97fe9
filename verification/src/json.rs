//! JSON documents, read through serde_json.
//!
//! A document is known to the proofs by its source text: what serde_json makes of a
//! text is named, not restated, and a parsed object keeps the text it came from as
//! its view.
use vstd::prelude::*;

verus! {

/// `serde_json::Value`, carried through opaque: the proofs know a document by its text.
#[verifier::external_type_specification]
#[verifier::external_body]
pub struct ExJsonValue(serde_json::Value);

/// `<serde_json::Value as Clone>::clone`, called by the derived `Clone` of the types
/// that carry provider data; nothing is stated of the copy.
pub assume_specification[ <serde_json::Value as Clone>::clone ](v: &serde_json::Value) -> serde_json::Value;

/// What a text is as a JSON document.
#[derive(Clone, Copy, Debug, PartialEq, Eq, Structural)]
pub enum JsonShape {
    /// Not a JSON document.
    Malformed,
    /// A JSON document whose top-level value is not an object.
    NotObject,
    /// A JSON document whose top-level value is an object.
    Object,
}

/// A parsed JSON object, together with (as its view) the text it was parsed from.
pub struct JsonObject {
    pub(crate) value: serde_json::Value,
    source: Ghost<Seq<char>>,
}

impl View for JsonObject {
    type V = Seq<char>;

    closed spec fn view(&self) -> Seq<char> {
        self.source@
    }
}

/// The outcome of parsing a text as JSON.
pub enum ParsedJson {
    Malformed,
    NotObject,
    Object(JsonObject),
}

impl ParsedJson {
    pub open spec fn shape(self) -> JsonShape {
        match self {
            ParsedJson::Malformed => JsonShape::Malformed,
            ParsedJson::NotObject => JsonShape::NotObject,
            ParsedJson::Object(_) => JsonShape::Object,
        }
    }
}

/// The deepest nesting of schema documents that is read and compiled. Both serde_json's
/// deserializer without its nesting limit and jsonschema's compiler recurse once per
/// level, so a deeper document is refused before either runs.
pub const MAX_SCHEMA_DEPTH: usize = 512;

/// Where a left-to-right scan of JSON text stands: the open brackets (`[`, `{`) outside
/// strings, the most seen at once so far, and whether it is inside a string, just after
/// a backslash there.
pub struct NestingScan {
    pub depth: nat,
    pub deepest: nat,
    pub in_string: bool,
    pub escaped: bool,
}

/// One character of the scan. A closing bracket with nothing open changes nothing.
pub open spec fn scan_char(s: NestingScan, c: char) -> NestingScan {
    if s.in_string {
        if s.escaped {
            NestingScan { escaped: false, ..s }
        } else if c == '\\' {
            NestingScan { escaped: true, ..s }
        } else if c == '"' {
            NestingScan { in_string: false, ..s }
        } else {
            s
        }
    } else if c == '"' {
        NestingScan { in_string: true, escaped: false, ..s }
    } else if c == '{' || c == '[' {
        let d = s.depth + 1;
        NestingScan { depth: d, deepest: if d > s.deepest { d } else { s.deepest }, ..s }
    } else if c == '}' || c == ']' {
        NestingScan { depth: if s.depth > 0 { (s.depth - 1) as nat } else { 0 }, ..s }
    } else {
        s
    }
}

/// The scan after all of `text`.
pub open spec fn scan_text(text: Seq<char>) -> NestingScan
    decreases text.len(),
{
    if text.len() == 0 {
        NestingScan { depth: 0, deepest: 0, in_string: false, escaped: false }
    } else {
        scan_char(scan_text(text.drop_last()), text.last())
    }
}

/// The deepest bracket nesting of `text`, strings left out. For JSON text it is the
/// nesting depth of the document; for any text it bounds how deep serde_json's
/// deserializer descends before it stops.
pub open spec fn nesting_depth(text: Seq<char>) -> nat {
    scan_text(text).deepest
}

proof fn lemma_deepest_grows(text: Seq<char>, k: int)
    requires
        0 <= k <= text.len(),
    ensures
        scan_text(text.take(k)).deepest <= scan_text(text).deepest,
        scan_text(text).depth <= scan_text(text).deepest,
    decreases text.len(),
{
    if text.len() > 0 {
        if k < text.len() {
            assert(text.drop_last().take(k) =~= text.take(k));
            lemma_deepest_grows(text.drop_last(), k);
        } else {
            assert(text.take(k) =~= text);
            lemma_deepest_grows(text.drop_last(), 0);
        }
    }
}

/// Whether `text` nests no deeper than `limit`.
pub fn nests_within(text: &str, limit: usize) -> (r: bool)
    ensures
        r == (nesting_depth(text@) <= limit),
{
    let mut depth: usize = 0;
    let mut deepest: usize = 0;
    let mut in_string = false;
    let mut escaped = false;
    for c in it: text.chars()
        invariant
            it.seq() == text@,
            depth <= deepest,
            deepest <= limit,
            ({
                let s = scan_text(text@.take(it.index() as int));
                &&& s.depth == depth
                &&& s.deepest == deepest
                &&& s.in_string == in_string
                &&& s.escaped == escaped
            }),
    {
        let ghost k = it.index() as int;
        proof {
            assert(text@.take(k + 1).drop_last() =~= text@.take(k));
            assert(text@.take(k + 1).last() == c);
            lemma_deepest_grows(text@.take(k), k);
        }
        if in_string {
            if escaped {
                escaped = false;
            } else if c == '\\' {
                escaped = true;
            } else if c == '"' {
                in_string = false;
            }
        } else if c == '"' {
            in_string = true;
            escaped = false;
        } else if c == '{' || c == '[' {
            if depth == limit {
                proof {
                    lemma_deepest_grows(text@, k + 1);
                }
                return false;
            }
            depth = depth + 1;
            if depth > deepest {
                deepest = depth;
            }
        } else if c == '}' || c == ']' {
            if depth > 0 {
                depth = depth - 1;
            }
        }
    }
    proof {
        assert(text@.take(text@.len() as int) =~= text@);
    }
    true
}

/// The shape that `serde_json::from_str::<serde_json::Value>` finds in a text.
pub uninterp spec fn json_text_shape(text: Seq<char>) -> JsonShape;

/// The shape that serde_json's deserializer finds in a text when its nesting limit is
/// lifted (`Deserializer::disable_recursion_limit`, then the end-of-input check that
/// `from_str` also makes).
pub uninterp spec fn json_text_shape_unlimited(text: Seq<char>) -> JsonShape;

/// What `serde_json::Value::get` finds under `key` in the object that `document`
/// denotes: `None` when the key is absent, `Some(None)` when its value is not a JSON
/// string, `Some(Some(s))` when it is the JSON string `s`.
pub uninterp spec fn json_string_member(document: Seq<char>, key: Seq<char>) -> Option<Option<Seq<char>>>;

pub open spec fn member_view(m: Option<Option<String>>) -> Option<Option<Seq<char>>> {
    match m {
        None => None,
        Some(None) => Some(None),
        Some(Some(s)) => Some(Some(s@)),
    }
}

/// `serde_json::from_str::<serde_json::Value>`: its outcome on `text` is the named
/// shape of `text`; an object it yields keeps `text` as its view.
#[verifier::external_body]
pub fn parse_json(text: &str) -> (r: ParsedJson)
    ensures
        r.shape() == json_text_shape(text@),
        r matches ParsedJson::Object(o) ==> o@ == text@,
{
    match serde_json::from_str::<serde_json::Value>(text) {
        Err(_) => ParsedJson::Malformed,
        Ok(serde_json::Value::Object(map)) => ParsedJson::Object(
            JsonObject { value: serde_json::Value::Object(map), source: Ghost(text@) },
        ),
        Ok(serde_json::Value::Null) => ParsedJson::NotObject,
        Ok(serde_json::Value::Bool(_)) => ParsedJson::NotObject,
        Ok(serde_json::Value::Number(_)) => ParsedJson::NotObject,
        Ok(serde_json::Value::String(_)) => ParsedJson::NotObject,
        Ok(serde_json::Value::Array(_)) => ParsedJson::NotObject,
    }
}

/// `serde_json::Deserializer::from_str` with `disable_recursion_limit`, deserializing a
/// `serde_json::Value` and then requiring the end of input, as `from_str` does but
/// with no limit on nesting: its outcome on `text` is the named unlimited shape of
/// `text`; an object it yields keeps `text` as its view. Only text nested at most
/// `MAX_SCHEMA_DEPTH` deep is handed to it, which keeps its recursion (and the drop of
/// what it builds) within the stack.
#[verifier::external_body]
pub fn parse_json_unlimited(text: &str) -> (r: ParsedJson)
    requires
        nesting_depth(text@) <= MAX_SCHEMA_DEPTH,
    ensures
        r.shape() == json_text_shape_unlimited(text@),
        r matches ParsedJson::Object(o) ==> o@ == text@,
{
    let mut de = serde_json::Deserializer::from_str(text);
    de.disable_recursion_limit();
    let parsed = <serde_json::Value as serde::Deserialize>::deserialize(&mut de);
    match parsed.and_then(|value| de.end().map(|()| value)) {
        Err(_) => ParsedJson::Malformed,
        Ok(serde_json::Value::Object(map)) => ParsedJson::Object(
            JsonObject { value: serde_json::Value::Object(map), source: Ghost(text@) },
        ),
        Ok(serde_json::Value::Null) => ParsedJson::NotObject,
        Ok(serde_json::Value::Bool(_)) => ParsedJson::NotObject,
        Ok(serde_json::Value::Number(_)) => ParsedJson::NotObject,
        Ok(serde_json::Value::String(_)) => ParsedJson::NotObject,
        Ok(serde_json::Value::Array(_)) => ParsedJson::NotObject,
    }
}

/// `serde_json::Value::get` on an object, with the member's value told apart as a
/// JSON string (its contents) or anything else; the outcome is the named member of
/// the object's source text.
#[verifier::external_body]
pub fn string_member(object: &JsonObject, key: &str) -> (r: Option<Option<String>>)
    ensures
        member_view(r) == json_string_member(object@, key@),
{
    match object.value.get(key) {
        None => None,
        Some(serde_json::Value::String(s)) => Some(Some(s.clone())),
        Some(serde_json::Value::Null) => Some(None),
        Some(serde_json::Value::Bool(_)) => Some(None),
        Some(serde_json::Value::Number(_)) => Some(None),
        Some(serde_json::Value::Array(_)) => Some(None),
        Some(serde_json::Value::Object(_)) => Some(None),
    }
}

} // verus!
