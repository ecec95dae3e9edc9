# movies_api

Turns the IMDb TSV dumps (`title.basics`, `title.akas`, `name.basics`,
`title.crew`, `title.episode`, `title.principals`, `title.ratings`) into
id-based tables for a movies database, and holds the settings of the web
service that serves them.

- `src/` is the verified library. Each dump has a parser in `src/models/`:
  a state (id counters, numbered genres or professions, values seen, keys
  without an id) and a `parse` step that turns one row into the rows to
  write, with a contract that states those rows exactly. `src/registry.rs`
  holds the collections the parsers keep, `src/text.rs` the field
  operations (splitting, joining, decimal parsing), `src/configuration.rs`
  the environment and connection settings.
- `app/` reads and writes the files, runs the loops that feed the parsers,
  loads the settings and runs the web service.
- `tests/` exercises the library on concrete rows.
