# querent_core

A context-aware SQL completion engine's core, verified with Verus: a
dialect-driven lexer, a bidirectional token-pattern matcher and the keyword
follow rules built on it, cursor detection, two tolerant SQL parsers, an
in-memory schema cache, and a rope-backed document model.

Layout:

- `src/` — the verified library.
  - `lex/` — token types, byte scanners, the lexer, token patterns (`rule`),
    and the token tape the parsers read.
  - `dialect/` — ANSI, PostgreSQL and SQLite descriptions: keywords,
    operators, lexical style, built-in functions, follow rules.
  - `parse/` — the statement parser (`Parser`), the fuller parser
    (`v2::WinnowParser`, also behind `v3::parse_statement`), and decimal
    number reading.
  - `ast.rs`, `span.rs`, `text.rs` — the syntax tree, spans, UTF-8 helpers.
  - `engine/context/` — where the cursor stands among the tokens, and the
    clause it is in.
  - `engine/provider/` — where tables and columns are offered, and the table
    completions built from a catalog's (table, schema) listing.
  - `schema/` — catalog types and the schema cache and its builder.
  - `doc.rs` — an open document over a `ropey::Rope`.
  - `lsp/` — message payloads exchanged with clients and engine hosts, the
    per-dialect catalog queries, reading PostgreSQL type names, and the
    expiry and key decisions of a catalog cache.
  - `complete/` — the completion type, and the
    expectations (`Assert`, `CompletionAssertion`) checked against a list of
    completions, with the catalogs the tests use.
- `tests/` — the tests, run against the compiled library.
- `app/` — serde wire formats of the message payloads.
