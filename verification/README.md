# wave_scoping

A verified library for decentralized backlog prioritization: contributors cast
reputation-weighted votes on GitHub issues in voting rounds ("waves"), the owner
can fast-track emergencies behind a timelock, and a maintainer who raises an
issue's points after work on it has started is slashed.

- `src/` — the library, written in Verus; every function carries a contract.
  - `math`, `wave` — arithmetic helpers and wave lifecycle checks.
  - `types`, `errors` — records, events (each with a view over character
    sequences) and error texts.
  - `pair_map` — a map keyed by pairs of texts (voter and issue, maintainer and issue).
  - `reputation_manager`, `emergency_scoping`, `slashing_manager` — the three managers.
  - `wave_scoping` — the hub that ties them together.
- `tests/` — scenario tests.
- `app/` — the command-line front end and its demo.
