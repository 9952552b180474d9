# tmux_ui_manager

A tmux session / window / pane manager shown as three linked Miller columns
(SESSIONS → WINDOWS → PANES) in a tmux popup, driven by the keyboard.
Pointer and drag events are read and translated, but they change nothing
yet: the app has no pointer or drag operations.

The logic is a Verus library whose functions carry `requires` / `ensures`
contracts proved by Verus; the terminal program around it is plain Rust.

## Layout

- `src/` — the verified library.
  - `text.rs` — character-level helpers (trimming, decimal text, digit parsing).
  - `model.rs` — the session / window / pane tree and its mathematical view.
  - `tmux/` — tmux ids, the `list-panes` snapshot parser (with laws on the
    grouped tree: counts, distinct ids, nothing lost or made up, tmux's order
    kept), and the command lines of every action.
  - `ui/` — the app state machine (`app.rs`, `dispatch.rs`), drag planning,
    hit-testing, overlays, theme, column rows and scrolling, header / footer
    texts and frame layout.
  - `input.rs` — terminal events to app intents, per mode.
  - `version.rs` — reading `tmux -V`.
- `tests/` — tests of the library on concrete values.
- `app/` — the executable: terminal setup, the event loop, running tmux, and
  drawing with ratatui.
