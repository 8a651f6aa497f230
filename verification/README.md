# readyset

ReadySet's error type and the decisions of its views synchronizer, verified with Verus.

`src/` is the verified library:

- `errors.rs`: `ReadySetError` and its variants, the chain of errors that caused an
  error (`source_error`, `causes`, `caused_by`), the `is_*` / `caused_by_*` queries,
  `context`, and the constructors of common errors.
- `display.rs`: the message each error renders (`text`, `to_string`).
- `text.rs`: decimal numbers, schema prefixes and `{:?}`-style lists, proved against
  their specifications.
- `conversions.rs`: `From` conversions from the errors of the database, serialization
  and allocator crates.
- `views_synchronizer.rs`: which pending queries are asked about and which are marked
  as migrated after a poll, and what the synchronizer's loop does on each event.
- `laws.rs`: properties that relate these functions (chains of causes, context,
  messages, the synchronizer's updates).
- `external.rs`: the outside types carried opaque and the trusted items that call into
  `url`, `petgraph`, `anyhow` and the crates whose errors are converted.

`app/` holds what Verus does not take: `serde`-serializable copies of the error types
with `Display` and `std::error::Error`, the error macros, and the synchronizer's
`tokio` loop.
