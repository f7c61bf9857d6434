//! Auto mode: an orchestrator model plans a task, worker models carry the plan
//! out one worker at a time, and a failed worker may send the task back to the
//! orchestrator.
//!
//! Everything that decides is here, as functions from plain values to plain
//! values: the executor's state machine, the settings rules, the registry of
//! pending approvals, the preparation of a turn and the plan tool's schema.
//! Whatever waits (a model call, a database, a click) happens outside and hands
//! its outcome back in.

pub mod approval;
pub mod calls;
pub mod executor;
pub mod executor_laws;
pub mod executor_model;
pub mod executor_seen;
pub mod json;
pub mod schema;
pub mod settings;
pub mod text;
pub mod turn;
pub mod types;
