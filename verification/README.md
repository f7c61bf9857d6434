# auto_mode

Auto mode lets an orchestrator model plan a task, has worker models carry the
plan out one after the other, and asks the orchestrator again when a worker
fails, as long as the replan budget lasts.

- `src/` is the library. It decides and never waits; every function of it but
  the eight wrappers named below is verified with Verus.
  - `executor_model.rs` is the executor as a mathematical state machine,
    `executor.rs` the executable one, `executor_laws.rs` what holds of every task.
  - `settings.rs` reads and writes the settings, `approval.rs` keeps the plans
    that wait for the user, `turn.rs` prepares a task.
  - `schema.rs` is the tool that the orchestrator submits a plan with, built on
    `json.rs`.
  - `types.rs` and `text.rs` hold the data and the text helpers.
- `app/` is the asynchronous side: it calls models, waits for the user and talks
  to the database, and drives the library.
- `tests/` runs the library on concrete values.

Two outside crates are called from the library: `serde_json` to build JSON
values, through seven wrappers in `json.rs`, and `uuid` for fresh ids, through
one in `turn.rs`. The wrappers are marked `external_body`; their contracts say
what is relied on.
