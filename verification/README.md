# baml_gleam

Gleam support for BAML: the code generator that turns BAML types into Gleam
types and text, and the value conversions of the Gleam language client
(JSON, Erlang terms, call contexts). The library in `src/` is written in
Verus; every function there carries a contract that Verus proves.

Layout of `src/`:

- `ir`, `package`: the parts of the compiled BAML program that the generator
  reads, and the package being rendered.
- `gleam_type`, `ir_to_gleam`, `generated_types`, `templates`, `functions`:
  Gleam types, their spelling, and the generated items and module texts.
- `text`: string helpers and the character case mappings of std.
- `value`, `json`, `erlang_term`: BAML values and their conversions to and
  from JSON and Erlang terms, with round-trip laws.
- `erlang_calls`, `wasm_calls`: what the Erlang and JavaScript entry points
  read from their arguments and what they answer.
- `types`, `errors`: client registry, call context, media data and errors.

`app/` holds the edges that Verus does not see: `serde_json` values and
`rustler` terms converted to and from the library's values, and the copies
of the client types that carry serde derives.
