# resetping

The verified core of ResetPing, a tray notifier that polls a status endpoint
and tells the user when the reported state flips.

- `src/` is the library, verified with Verus:
  - `settings` — defaults, bounds and the legacy telemetry migration;
  - `status` — normalizing the upstream state, judging HTTP replies, and the
    curl fallback's argument list and output framing;
  - `poll` — the poll engine's decisions: start, success, failure, transition
    history, notifications and failure-streak health;
  - `updates` — update checks and installation of a found update;
  - `control` — settings changes with rollback, the usage heartbeat, tray
    menu routing;
  - `schedule` — clock, heartbeat and update-check cadence, poll delay;
  - `telemetry` — which events are sent, when, and with which tags;
  - `runtime` — the runtime state, the bounded diagnostics log, and what is
    shown and saved of it;
  - `text` — character-level helpers (whitespace, search, decimal).
- `app/` is the Tauri shell: windows, tray, HTTP, files, Sentry, and the loop
  that performs what the library decides.
- `tests/` exercises the library on concrete values.
