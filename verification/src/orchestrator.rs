//! The orchestrator's configuration and the plan of phases it runs.

pub mod config;
pub mod datafilter;
pub mod dataloader;
pub mod default;

use vstd::prelude::*;

use crate::orchestrator::datafilter::DataFilter;
use crate::trainer::scheduler::{
    phase_at, phase_index, resume_limit, start_error, Phase, PhaseSchedule, Scheduler, PHASE_COUNT,
};

verus! {

/// Where training resumes: the phase, the superbatch within it, and a
/// checkpoint file to load weights from (empty for none).
#[derive(Debug)]
pub struct CheckpointConfig {
    pub phase: Phase,
    pub superbatch: usize,
    pub load: String,
}

impl CheckpointConfig {
    /// The checkpoint file to load weights from: the configured path if it
    /// is not empty, none otherwise.
    pub fn weights_to_load(&self) -> (path: Option<&str>)
        ensures
            path is Some <==> self.load@.len() > 0,
            path matches Some(p) ==> p@ == self.load@,
    {
        let p: &str = self.load.as_str();
        if p.is_empty() {
            None
        } else {
            Some(p)
        }
    }
}

impl Default for CheckpointConfig {
    /// A fresh start: the beginning of pretraining, with no weights to load.
    fn default() -> (c: Self)
        ensures
            c.phase == Phase::Pretrain,
            c.superbatch == 0,
            c.load@ == ""@,
    {
        CheckpointConfig { phase: Phase::Pretrain, superbatch: 0, load: String::from_str("") }
    }
}

/// The dataset files of each phase.
#[derive(Debug)]
pub struct DatasetConfig {
    pub pre_train: Vec<String>,
    pub train: Vec<String>,
    pub tune: Vec<String>,
}

impl DatasetConfig {
    /// The dataset files that `phase` trains on.
    pub fn for_phase(&self, phase: Phase) -> (datasets: &Vec<String>)
        ensures
            datasets == match phase {
                Phase::Pretrain => &self.pre_train,
                Phase::Train => &self.train,
                Phase::Tune => &self.tune,
            },
    {
        match phase {
            Phase::Pretrain => &self.pre_train,
            Phase::Train => &self.train,
            Phase::Tune => &self.tune,
        }
    }
}

/// Everything a training run is configured with.
#[derive(Debug)]
pub struct Orchestrator {
    pub output_dir: String,
    pub threads: usize,
    pub log_config: bool,
    pub load_checkpoint: CheckpointConfig,
    pub datasets: DatasetConfig,
    pub scheduler: Scheduler,
    pub filter: DataFilter,
    pub buffer_size_mb: usize,
}

impl Orchestrator {
    /// The number of threads when none is configured.
    pub fn default_threads() -> (n: usize)
        ensures
            n == 1,
    {
        1
    }

    /// The superbatch at which the `i`-th phase of the plan starts: the
    /// checkpoint's superbatch for the first, the beginning for the rest.
    pub open spec fn planned_start(self, i: int) -> usize {
        if i == 0 {
            self.load_checkpoint.superbatch
        } else {
            0
        }
    }

    /// The schedules of the phases that the run trains, in order: the
    /// checkpoint's phase resumed at the checkpoint's superbatch, then each
    /// later phase from its beginning. Refused, with the checkpoint phase's
    /// message, when the checkpoint's superbatch is not below that phase's
    /// limit; no later phase can refuse.
    pub fn phase_schedules(&self) -> (res: Result<Vec<PhaseSchedule>, String>)
        ensures
            res is Ok <==> self.load_checkpoint.superbatch < resume_limit(self.load_checkpoint.phase),
            res matches Err(m) ==> m@ == start_error(self.load_checkpoint.phase),
            res matches Ok(plan) ==> {
                let first = phase_index(self.load_checkpoint.phase) as int;
                &&& plan@.len() == PHASE_COUNT - first
                &&& forall|i: int|
                    0 <= i < plan@.len() ==> self.scheduler.describes(
                        phase_at(first + i),
                        self.planned_start(i),
                        #[trigger] plan@[i],
                    )
                &&& plan@[0].phase == self.load_checkpoint.phase
                &&& plan@[plan@.len() - 1].phase == Phase::Tune
                &&& plan@[0].steps.start_superbatch == self.load_checkpoint.superbatch
                &&& forall|i: int|
                    1 <= i < plan@.len() ==> (#[trigger] plan@[i]).steps.start_superbatch == 0
                &&& forall|i: int|
                    0 <= i < plan@.len() ==> phase_index((#[trigger] plan@[i]).phase) == first + i
            },
    {
        let first: usize = self.load_checkpoint.phase.index();
        let mut plan: Vec<PhaseSchedule> = Vec::new();
        let mut k: usize = first;
        while k < PHASE_COUNT
            invariant
                first == phase_index(self.load_checkpoint.phase),
                first <= k <= PHASE_COUNT,
                plan@.len() == k - first,
                k > first ==> self.load_checkpoint.superbatch < resume_limit(self.load_checkpoint.phase),
                forall|i: int|
                    0 <= i < plan@.len() ==> self.scheduler.describes(
                        phase_at(first + i),
                        self.planned_start(i),
                        #[trigger] plan@[i],
                    ),
            decreases PHASE_COUNT - k,
        {
            let phase: Phase = Phase::from_index(k);
            let start: usize = if k == first {
                self.load_checkpoint.superbatch
            } else {
                0
            };
            match self.scheduler.get(phase, start) {
                Ok(schedule) => {
                    plan.push(schedule);
                },
                Err(message) => {
                    return Err(message);
                },
            }
            k = k + 1;
        }
        Ok(plan)
    }
}

/// A run resumes only its first phase: the plan's first phase starts at the
/// checkpoint's superbatch and every later phase starts at superbatch 0,
/// whatever the checkpoint.
pub proof fn lemma_only_first_phase_resumes(orchestrator: Orchestrator, i: int)
    requires
        i >= 1,
    ensures
        orchestrator.planned_start(0) == orchestrator.load_checkpoint.superbatch,
        orchestrator.planned_start(i) == 0,
{
}

} // verus!
