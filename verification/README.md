# easy_experiments

The verified core of an A/B testing service.

- `src/` is the library, checked by Verus: request validation, the
  experiment lifecycle (start, stop, delete, partial update with optimistic
  versioning) and its laws, the exposure writer's batching decisions, the
  error-to-HTTP mapping, and small text helpers (trimming, UTF-8 lengths,
  integer parsing, URL encoding) with their specifications.
- `tests/` runs the library on concrete values.
- `app/` is the server around it: configuration from the environment,
  SQLite and DuckDB access, HTTP handlers and the writer task. It calls the
  library for every decision and keeps only I/O.
