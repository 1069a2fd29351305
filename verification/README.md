# sqsh

A terminal MySQL client with bastion (jump host) support, fuzzy pickers
for connections and results, SQL completion, a shell input and an
SQL-writing assistant.

## Layout

- `src/` — the library, verified with Verus: configuration resolution and
  validation, messages in English and Japanese, SQL classification and
  rewriting, the completion engine, the line editors and their histories,
  key handling of the input areas, result-picker actions, the preview
  records and their chunk files, table layout, retry and tunnel
  bookkeeping, the assistant's reply handling, and the decisions of the
  interface (what a key, a finished query or a closed picker leads to).
  Public proof functions (`law_*`) state properties that span calls, such
  as reading back a written preview row or undoing an edit.
- `tests/` — tests of the library on concrete values.
- `app/` — the program around the library: command line, logging,
  reading the TOML file, the MySQL driver, SSH, the skim pickers, the
  ratatui screens, the clipboard and the HTTP client.
