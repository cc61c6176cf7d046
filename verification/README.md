# enjo

A local-first terminal task manager you open at the start of each day to
answer three questions: what have I started, what's coming up, and what's next.
The local SQLite database is the source of truth; there is no network path.

## Layout

- `src/` is the library, written in Verus and proved:
  - `model.rs`: status, priority, calendar dates, instants and the task, with
    the status transitions that keep `completed_at` in step.
  - `ordering.rs`: the shared task order (priority descending, due date
    ascending with undated last, creation ascending) as a stable sort.
  - `listing.rs`: the Today sections, the filtered All list and the overview.
  - `app.rs`: the application state machine. A key press or a store reply
    moves it to its next state and may hand back one store request
    (list, get, upsert, soft delete) for the caller to perform.
  - `codec.rs`: the text encodings of ids, dates and instants, and the row
    codec of the task table.
  - `status.rs`: the one-line `enjo status` summary for status bars.
  - `ui.rs`: the texts and the Today layout the screens draw.
  - `cli.rs`, `config.rs`: command-line options and the data directory.
  - `clock.rs`: the clock and the id generator.
  - `laws.rs`: properties spanning several functions, such as the single
    in-progress task rule and the last-write-wins clock.
- `app/` is the program: terminal loop and rendering (ratatui), the SQLite
  store (rusqlite), the data directory on disk (directories), and the serde
  copies of the task types for the sync wire format.
- `tests/` exercises the library.

Run `enjo` for the TUI, or `enjo status [--tmux] [--max-len N]` for a status
bar line. `ENJO_DATA_DIR` overrides where `enjo.db` lives.
