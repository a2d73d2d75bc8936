//! Scheduling and health-check engine of an uptime monitor: cron evaluation,
//! start-up reconciliation of pending jobs, claiming of due jobs, the verdict of
//! one HTTP check, and debounced status updates.

pub mod cron_eval;
pub mod model;
pub mod health;
pub mod status;
pub mod scheduler;
