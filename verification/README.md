# valence_testkit

Matrix, catalog and scenario logic of the Valence test kit, verified with
Verus, and the runtime host that drives Valence backends with it.

## Layout

- `src/` — the verified library.
  - `matrix.rs`: storage × telemetry × topology rows, build features, which
    rows can run and why others are skipped, command-line parsing of the
    three dimensions.
  - `catalog.rs`: the embedded scenario catalog, which entries apply to
    which storage adapter, and the plan of running one entry (run with a
    matrix row and a scenario, or skip with an optional notice).
  - `scenario.rs`: declarative scenario steps, their labels and executor
    groups, and the named scenarios built from them.
  - `bootstrap.rs`: session configuration and the router a spawn installs.
  - `runner.rs`: the run of a scenario — next step, outcome bookkeeping,
    first-failure stop, benchmark timings.
  - `hops.rs`: hop engines, directed pairs and representative chains.
  - `on_delete.rs`, `ttl.rs`: cross-engine secondaries, deletion DAG apply
    order, TTL capability expectations and the TTL probes (which probe runs,
    stamp and presence verdicts, expiry polling).
  - `iter_scan.rs`, `checks.rs`, `verdicts.rs`: verdicts of steps on what a
    host observed (paged scans, counters, validators, counts, orderings).
  - `text.rs`, `fixtures.rs`: character-level helpers and fixture keys.
- `tests/` — tests of the library on concrete values.
- `app/` — the runtime host: sessions against `valence_core` backends,
  step executors, and the backend, model, admin, deletion, OnDelete and
  hop contracts. It makes the outside calls the library's decisions ask for.

## Dependencies

The library uses no outside crate. The `[dependencies]` of `Cargo.toml`
(`serde`, `serde_json`, `tokio`) serve `app/`: serializable scenario
documents, JSON rows, the harness lock and timed waits.
