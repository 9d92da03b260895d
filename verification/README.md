# rustup-paths-demo

A path resolver for rustup that keeps the legacy `~/.rustup` / `~/.cargo/bin`
layout by default, offers an opt-in XDG layout, always lets `RUSTUP_HOME` and
`CARGO_HOME` win, and plans the moves from one layout to the other.

- `src/` is the library, every function with a proved contract: `env` (path joining, homes),
  `config` (configuration-file overrides), `resolver` (the precedence rules),
  `migrate` (the migration plan and the bookkeeping of carrying it out),
  `report` (the text the commands print) and `laws` (properties proved of
  the resolution and of the migration plan).
- `app/` is the command-line program: argument parsing, reading the
  environment and the TOML configuration file, JSON output, and the file
  operations of a migration.
- `tests/` exercises the library.
