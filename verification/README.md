# Never Sleep

Never Sleep turns a Mac's display off while keeping the machine awake, so a
remote session (a phone, a chat agent driving the desktop) can keep working.
Standby runs from the menu bar or, without it, from `never-sleep on` in a
terminal.

## Layout

- `src/` — the library, verified with Verus.
  - `engine.rs` — the standby state machine: inputs (start, stop, tick, display
    events) to effects (power assertions, display sleep, session lock,
    notifications), with its invariant and the laws it keeps.
  - `config.rs`, `duration.rs` — settings, the duration syntax of the command
    line, deadlines, and the clock and countdown texts.
  - `status.rs`, `i18n.rs`, `report.rs` — what the menu, the status command and
    the phone board show, in English and Chinese.
  - `protocol.rs`, `foreground.rs`, `session_lock.rs` — the socket messages,
    the handoff of a live session from a foreground process to the menu, and
    who owns the session lock while that happens.
  - `control.rs`, `panel.rs` — what a menu click, a panel command or a socket
    request does, and the panel's navigation.
  - `cloud.rs` — the rules of the phone-board link: which heartbeat answers
    call for a new pairing, which of the board's commands are new, and the
    bytes of its messages. The command in `app/` does not run the link.
  - `text.rs`, `keyval.rs`, `locale.rs`, `util.rs`, `clock.rs`, `persist.rs` —
    text handling, the `key=value` files, language detection and small checks.
- `tests/` — tests of the library.
- `app/` — the `never-sleep` command: argument parsing, the socket client, the
  settings file, and the foreground loop around the library.
