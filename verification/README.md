# geph-tui

A terminal client for the Geph proxy engine, with its decisions verified in Verus.

- `src/` — the verified library:
  - `state.rs`: tabs, focus, persisted preferences, the application state and
    its well-formedness; start-up state and the preferences a state persists.
  - `keys.rs`: what each key does (stated as `global_key` / `focused_key`),
    and the laws of the key bindings.
  - `replies.rs`: the state once the daemon or the broker answered.
  - `refresh.rs`: the decisions of each tick of the event loop (account level,
    exit list, price tiers, registration progress).
  - `render.rs`: the texts that the interface shows.
  - `logbuf.rs`: the debug log buffer that keeps the newest lines.
  - `ctl.rs`: the command line and the control commands.
  - `locale.rs`, `text.rs`: language choice and text helpers.
- `app/` — the program: terminal, engine subprocess, RPC, files.
- `tests/` — tests of the library on concrete values.
