# ario

A download manager built on aria2: a daemon that keeps queues of downloads,
starts and pauses them on schedules, and answers an HTTP API; and a terminal
client that shows the queues and drives the daemon.

- `src/` is the library, verified with Verus: the data model (downloads,
  queues, schedules, tuning), the daemon's decisions (queue control,
  refills, transfer reconciliation, deletions, shutdown), and the client's
  state machine (lists, forms, key handling, help layout, supervision of a
  managed daemon). Calls into outside crates (chrono, unicode-segmentation,
  unicode-width, rand, regex, base64, reqwest's URL parser, catppuccin,
  directories) stand behind small trusted wrappers whose contracts say what
  the crates document.
- `app/` is the program around it: `ario server` runs the daemon (SQLite
  store, aria2c process and RPC, axum routes, the poller); `ario` runs the
  client (ratatui drawing, crossterm input, HTTP calls, the clipboard).
- `tests/` exercises the library through its public API.
