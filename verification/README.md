# geekorm_sql

A SQL query builder whose generated statements are specified and proved with
Verus, together with the model of what the table and data derives read from a
struct or an enum.

- `src/builder`: tables, columns, conditions, joins, ordering, pages, and the
  query builder with the statement of each query type (`queries/`).
- `src/query`, `src/sql`: built queries and batches of them, and the column
  definitions of built queries, where a column is known by its alias.
- `src/values`: values bound to statements, and values made from UUIDs, URLs
  and UTC date-times (through `uuid`, `url` and `chrono`), and from system times
  held as whole seconds since the Unix epoch.
- `src/derive`: column types, `#[geekorm(..)]` attributes, derived columns and
  tables, enum variant texts, and link tables.
- `app/`: file loading, system times of `std`, the state file of derived tables, serde and
  `std::error::Error` forms, and the `syn` / `quote` front end of the derive
  and of its database helpers.
- `tests/`: the library's tests.
