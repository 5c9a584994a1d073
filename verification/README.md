# rre_backend

The verified core of the Response Rule Engine admin backend: the rules that
decide what the API accepts and how it answers, written in Verus and proved
against their contracts.

- `src/` — the library. `schemas/` holds the request and response shapes with
  their validation rules (site custom headers, applicability selectors,
  component configurations, test-preset payloads, pagination, component
  template default resolution); `error.rs` the uniform error envelope;
  `models/` the storage rows; `json.rs` the trusted boundary to `serde_json`;
  `text.rs` character-level string predicates; `string_map.rs` the
  name → value map of custom headers and template variables, whose names
  never repeat; `pattern.rs` the trusted boundary to `regex`.
- `tests/` — executable tests of the library.
- `app/` — the HTTP server around the library (axum, sqlx, envy): settings
  loading, database connection, health and node-type routes, CORS, the wire
  forms of request bodies with their `validator` rules.

Identifiers are carried as the 128-bit value of their UUID and timestamps as
microseconds since the Unix epoch.
