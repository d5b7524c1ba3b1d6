# mnml-msg-buttondown

A terminal browser for Buttondown newsletters: drafts, sent issues with
open/click stats, the scheduled queue and subscribers, with publish and
unsubscribe actions behind a `[y/n]` confirm.

## Layout

- `src/` — the library, verified with Verus:
  - `text.rs`: character views of strings, decimal/hex rendering, line
    splitting, padding.
  - `config.rs`: the configuration and its validation.
  - `buttondown.rs`: the API records, request building (URLs, headers,
    bodies), reply checking and error messages.
  - `app.rs`: the app state machine — tabs, cursor, status line, pending
    confirmation, reload scheduling. Methods that need the network, the
    browser or the clipboard return what to do; `finish_*` methods take the
    outcome.
  - `keys.rs`: key → action mapping and what each action does.
  - `view.rs`: what the screen shows (tab strip, list window, detail panel,
    status line) as plain values.
  - `laws.rs`: properties of the whole, proved over the specifications.
- `app/` — the binary: environment, config file, HTTP, clipboard and the
  ratatui terminal.
- `tests/` — tests of the library.
