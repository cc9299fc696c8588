//! Supervisor for a local backend sidecar: single-instance lock decisions,
//! health classification, log records, on-disk layout and the readiness
//! state machine that drives spawning, polling and retries.

pub mod paths;
pub mod log;
pub mod lock;
pub mod gate;
pub mod health;
pub mod supervisor;
pub mod laws;
