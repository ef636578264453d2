# ratuin

A small shell-history tool: shell hooks record each command with its working
directory, exit code and duration into SQLite; existing bash, zsh and fish
histories can be imported; the history is searched by fuzzy subsequence, on the
command line or interactively.

## Layout

- `src/` — the library, verified with Verus:
  - `text.rs`, `number.rs`: character-level operations (`trim`, `lines`,
    ASCII lower case, substring search, path joining) and decimal parsing and
    printing, each proved against a specification.
  - `search.rs`: fuzzy subsequence matching, with laws (blank query matches all,
    contiguous substrings match, ASCII case is ignored, matches survive
    extension).
  - `privacy.rs`: detection of commands that carry credentials.
  - `importer_parsers.rs`, `importer.rs`: reading history files into records,
    and judging each record during an import (empty, sensitive, duplicate,
    imported), with counts that account for every record once.
  - `time.rs`: points in time as plain values and the calls into `chrono`.
  - `model.rs`: history entries and their textual description.
  - `db.rs`: SQL text, row conversion, and the matching step of a search.
  - `validators.rs`, `cli.rs`, `handlers.rs`: argument checks and what each
    command does.
  - `tui.rs`: the state of the interactive search and its key handling.
- `app/` — the program around it: argument parsing (`clap`), SQLite
  (`rusqlite`), files, the terminal (`crossterm`, `ratatui`), and the shell
  hook scripts.
- `tests/` — tests of the library on concrete values.
