# deadman-core

Deterministic containment policy for supervised agents, verified with Verus.

An agent's watchdog reports heartbeats to a control plane. The library
decides, from the heartbeat age, the failure count, arming and the current
directive, whether the agent is healthy, suspect, tripped or contained, and
whether its workload may keep running. It also holds the control plane's
request rules (authorization, policy changes, operator directives, event
recording) and the watchdog's local rules (when to run, contain, or fail
closed without the control plane).

Layout:

- `src/status.rs` — agent states and directives, and their stored names.
- `src/clock.rs` — instants and whole-second distances (through chrono).
- `src/policy.rs` — policy thresholds and the rules for changing them.
- `src/evaluation.rs` — the containment decision.
- `src/laws.rs` — properties every decision satisfies.
- `src/control.rs` — control-plane request and re-evaluation decisions.
- `src/watchdog.rs` — node-side watchdog decisions.
- `src/identity.rs` — agent identifiers (through uuid).
- `src/records.rs` — heartbeat reports and agent records.
- `src/text.rs` — string helpers: verified equality, prefix and blankness
  checks, decimal text, and wrappers of std's `to_string`,
  `char::is_whitespace`, `str::trim` and `str::split_whitespace`.
- `app/` — the two executables (`deadman control`, `deadman agent`): HTTP,
  PostgreSQL, Kafka, process supervision.

The control plane applies the schema migration found at
`DEADMAN_MIGRATION` (default `migrations/0001_init.sql`) on start.
