# armillae_structured

Structured-output checks for LLM completions, verified with Verus.

- `src/structured.rs`: `OutputValidation` — compiles a requested JSON Schema
  (`prepare`), checks a complete response against it (`validate`), and decides, one
  inner event at a time, what a gated completion stream hands on (`stream_step`;
  `run_stream` drives it over a finite inner stream).
- `src/schema.rs`: schema dialects (`$schema` URIs) and the compiled schema, through
  the `jsonschema` crate.
- `src/json.rs`: JSON documents, through `serde_json`; a parsed object is known to the
  proofs by the text it was parsed from.
- `src/terminal.rs`: the terminal summary of a provider stream (finish reason, usage,
  metadata).
- `src/text.rs`: Unicode white space and character-level text helpers.
- `src/laws.rs`: properties of the check and of a gated stream as a whole.
- `app/lib.rs`: the async stream built on `stream_step`, and JSON conversions at the edge.
