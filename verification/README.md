# vigil

A headless network monitoring engine. Nodes are polled (ICMP echo or TCP
connect) on fixed, drift-free intervals; each poll result drives a per-node
status state machine (`Unknown`, `Up`, `Down`), and a single-uplink
dependency model marks a node `Suppressed` while its parent is down.

## Layout

- `src/` is the library, written and verified with Verus:
  - `models/`: nodes, polls, poll results, statuses, instants and their
    RFC 3339 texts.
  - `engine/status.rs`: the status state machine.
  - `engine/dependency.rs`: effective status propagation.
  - `engine/scheduler.rs`: the bounded, drift-free scheduler.
  - `engine/monitor.rs`: the engine state (nodes, polls, scheduler) and
    its operations.
  - `net/`: poll outcomes, the retry rule, executor descriptions.
  - `db/`: how nodes, polls and results are stored in SQLite rows, and the
    retention cutoff.
  - `api/`: request validation and response shaping for the REST API.
  - `config.rs`: configuration defaults and overrides.
- `tests/`: tests of the library.
- `app/`: the daemon around the library: command line, configuration file,
  SQLite, the tokio event loop, the network executors and the axum API.
