//! Planning logic of a chess NNUE training orchestrator: which training
//! phases run and with which step schedule, how a resumed checkpoint is
//! taken into account, and which training positions the data filter keeps.

pub mod orchestrator;
pub mod scheduler;
pub mod trainer;
