//! Resume point and dataset configuration.

use vstd::prelude::*;

use crate::trainer::scheduler::Phase;

verus! {

/// Where training resumes.
#[derive(Debug)]
pub struct CheckpointConfig {
    /// The current training phase.
    pub phase: Phase,
    /// The superbatch index to resume from.
    pub superbatch: usize,
    /// Path to a checkpoint file to load weights from.
    pub load: String,
}

impl CheckpointConfig {
    /// The checkpoint file to load weights from: the configured path if it
    /// is not empty, none otherwise.
    pub fn weights_to_load(&self) -> (path: Option<&str>)
        ensures
            path is Some <==> self.load@.len() > 0,
            path matches Some(p) ==> p@ == self.load@,
    {
        let p: &str = self.load.as_str();
        if p.is_empty() {
            None
        } else {
            Some(p)
        }
    }
}

impl Default for CheckpointConfig {
    /// A fresh start: the beginning of pretraining, with no weights to load.
    fn default() -> (c: Self)
        ensures
            c.phase == Phase::Pretrain,
            c.superbatch == 0,
            c.load@ == ""@,
    {
        CheckpointConfig { phase: Phase::Pretrain, superbatch: 0, load: String::from_str("") }
    }
}

/// The dataset files of each phase.
#[derive(Debug)]
pub struct DatasetConfig {
    /// Paths to pre-train datasets.
    pub pre_train: Vec<String>,
    /// Paths to train datasets.
    pub train: Vec<String>,
    /// Paths to tune datasets.
    pub tune: Vec<String>,
}

} // verus!
