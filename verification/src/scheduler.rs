//! The single-schedule trainer setup: one run over a fixed range of
//! superbatches.

use vstd::prelude::*;

use crate::trainer::scheduler::{LinearWdl, TrainingSteps, WdlLevel};

verus! {

/// The range of superbatches to train and the batch layout.
#[derive(Clone, Copy, Debug)]
pub struct Scheduler {
    pub start_superbatch: usize,
    pub end_superbatch: usize,
    pub batch_size: usize,
    pub batches_per_superbatch: usize,
    pub save_rate: usize,
}

/// The integer part of a single run's schedule: its network name, steps,
/// WDL ramp, the superbatch at which its cosine learning-rate decay ends, and
/// its checkpoint rate. The learning rates and the configured WDL weight are
/// floating-point values that the caller adds.
#[derive(Debug)]
pub struct SingleSchedule {
    pub net_id: String,
    pub steps: TrainingSteps,
    pub wdl: LinearWdl,
    pub lr_final_superbatch: usize,
    pub save_rate: usize,
}

impl Scheduler {
    /// The schedule of the run, named "minke", over the configured range of
    /// superbatches; the WDL weight ramps from zero to the configured weight
    /// and the learning rate decays until the last superbatch.
    pub fn get(&self) -> (s: SingleSchedule)
        ensures
            s.net_id@ == "minke"@,
            s.steps == (TrainingSteps {
                batch_size: self.batch_size,
                batches_per_superbatch: self.batches_per_superbatch,
                start_superbatch: self.start_superbatch,
                end_superbatch: self.end_superbatch,
            }),
            s.wdl == (LinearWdl { start: WdlLevel::Zero, end: WdlLevel::Target }),
            s.lr_final_superbatch == self.end_superbatch,
            s.save_rate == self.save_rate,
    {
        SingleSchedule {
            net_id: String::from_str("minke"),
            steps: TrainingSteps {
                batch_size: self.batch_size,
                batches_per_superbatch: self.batches_per_superbatch,
                start_superbatch: self.start_superbatch,
                end_superbatch: self.end_superbatch,
            },
            wdl: LinearWdl { start: WdlLevel::Zero, end: WdlLevel::Target },
            lr_final_superbatch: self.end_superbatch,
            save_rate: self.save_rate,
        }
    }
}

} // verus!
