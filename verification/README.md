# steam_throttle

Steam Throttle adjusts Steam's download bandwidth around League of Legends
matches. This crate holds its decision logic, verified with Verus:

- `src/policy.rs`: observations of the game, bandwidth actions, rules and
  their evaluation (first enabled rule that applies; a pausing fail-safe
  where none does), pause ownership.
- `src/settings.rs`: settings, defaults, schema migration, the throttle range.
- `src/automation.rs`: the policy that the settings configure (proved to
  choose, for every observation, the action that `documented_action` states:
  free outside a match, throttled while loading or while telemetry is
  uncertain, the user's choices in other modes and in Arena; the last two
  follow the tests where they differ from the README table), the runtime snapshot, and the monitor's
  per-sample decision with its debouncing of relaxations and its activity log.
- `src/control.rs`: the decisions behind the application commands
  (switching automation, restoring Steam, update messages, tray entries).
- `src/steam.rs`: Steam console commands and the reading of Steam's console log.
- `src/league.rs`: the League client lockfile, gameflow phase and live data.
- `src/host.rs`: paths and running processes by name.
- `src/text.rs`: the character-level behaviour of `str` that the parsers use.

`app/` is the desktop shell around it (Tauri, the monitor loop, files,
processes, HTTP and Win32), which Verus does not see.
