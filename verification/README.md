# db-sqlx-postgres

A Postgres-backed gist store (accounts, gists, comments) on `sqlx`.

- `src/` is the verified library: the data model (`model`), the mapping of
  driver errors onto the store's error type (`errors`), the conversion of view
  rows into gists and comments (`rows`), the answer each store operation gives
  on the outcome of its query (`outcome`), and character-level string helpers
  (`text`).
- `app/` holds the connection pool and the queries; each query's outcome is
  handed to `outcome` for the answer.
- `tests/` exercises the library on concrete values.
