# ergosphere

A reactive, event-driven push replication daemon for Pi-hole v6 replica setups,
written as a Verus-verified library (`src/`) and a thin binary around it (`app/`).

## Layout

- `src/config.rs` — configuration model, defaults, the `full_sync` rule, the
  Teleporter import options, the ordering of index-keyed replica tables and the
  configuration blueprint.
- `src/api/` — Pi-hole v6 API: wire types (`types.rs`), errors (`error.rs`), URL
  handling through the `url` crate (`web_url.rs`) and the session client
  (`client.rs`): what each exchange sends and what each reply means.
- `src/watcher.rs` — which filesystem batches reach the daemon.
- `src/daemon.rs` — the daemon as a state machine: `run`, `run_once`,
  `shutdown` and `step` return the next action (authenticate a node, read the
  state token, download, upload, rebuild gravity and read its output, wait for
  events, report a failure, end sessions, exit) and take its outcome back. Its transition relation is `spec_step`, and
  the proof functions next to it state the daemon's laws.
- `src/args.rs`, `src/consts.rs` — command line values, colour choice, fixed names.
- `app/` — `main`, clap, tracing, configuration loading with the `config`
  crate, the `notify` watcher and the `reqwest` exchanges that carry out the
  daemon's actions.
