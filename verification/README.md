# taurhaus_daemon

The verified core of the Taurhaus daemon, the background process that scans
CLI coding sessions, hosts coordination runs for teams of agents, and serves
the desktop app over a local NDJSON socket.

`src/` is a Verus library. Every function in it carries a contract and is
proved; the laws the daemon keeps (highest launch-settings version wins, a
terminal run is final and expires after its TTL while a running one never
does, a degraded scanner cycle is inert, the hub version moves exactly on a
change, a token is accepted exactly when it is the expected one, …) are
public proof functions or the `ensures` of the functions they are about.

- `session_activity`, `sessions`: the session hub, its change signature,
  scanner cadence and long-poll answers.
- `coordination_runs` and the `*_runs` services: the run registry, worker
  settlement and the status each operation answers.
- `protocol`, `handlers`, `server`: wire types, method routing, request
  framing and screening.
- `auth`, `launcher`, `paths`: token validation and generation, launch
  arguments and path rules.
- `background_scheduler`, `claude_usage`, `agy_hooks`, `compaction`,
  `event_listener`, `initialize_runs`, `roster_runs`, `hosted_activity`,
  `hosted`, `codex_notify`, `listeners`, `state_writes`, `by_time`:
  the remaining daemon rules.

`app/` is ordinary Rust around it: locks and condition variables, file,
process and socket I/O (the hook and notify sinks, the event connection,
launching), and the JSON wire encoding.
