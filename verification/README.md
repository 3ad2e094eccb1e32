# skycartel

A small space simulation: planets that charge energy cells from sunrays,
generate and combine resources and defend themselves against asteroids;
explorers that travel between planets, fill a bag and work towards goals;
and an orchestrator that keeps the books and routes every message. The
rules are stated as contracts and proved with Verus.

## Layout

- `src/game/` — the shared components: energy cells, sunrays, rockets, the
  forge, resources and recipes, planet state and the planet core that
  answers the orchestrator and explorers, the message types, event logging
  and a simple type A behaviour.
- `src/planet_ai/` — the planet behaviours: Skycartel (carbon from its
  generation cells, rockets from its defense cells), Luna4 (an eight-phase
  moon cycle deciding what it generates) and Crabtorio; their energy
  management, counters and errors.
- `src/explorer/` — the explorer's bag, its message handlers, goal planning
  and the autonomous AI, each step a function from state and answer to
  the next state.
- `src/orchestrator.rs` — the orchestrator's bookkeeping (who lives, in
  which phase, where each explorer is) and what it sends in answer to each
  message.
- `src/telemetry.rs`, `src/planet_telemetry.rs`, `src/logging.rs`,
  `src/broadcast_log.rs` — what is reported for observation: snapshots,
  cell states, log lines and log entries.
- `tests/` — the scenarios, run against the compiled library.
- `app/` — the program around the library: threads and channels, the web
  interface, the log sink and the asteroid physics.
