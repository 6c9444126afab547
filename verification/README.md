# leetui

The verified core of a terminal client for an online judge.

- `src/` is the library, verified with Verus: the API data model
  (`api`), text helpers (`text`, `styled`), the favourite-lists outline
  and its key handling (`ui::lists`), the run/submit result report
  (`ui::result`) and the Python solution scaffold (`scaffold`).
- `app/` is the plain Rust around it: JSON decoding with serde, key events
  from crossterm, drawing with ratatui, and writing solution files.
- `tests/` exercises the library.
