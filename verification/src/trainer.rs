//! Per-phase training schedules.

pub mod scheduler;
