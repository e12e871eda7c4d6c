//! The three training phases and the schedule that each of them runs.

use vstd::prelude::*;


verus! {

/// A phase of training. Phases run in the order `Pretrain`, `Train`, `Tune`.
#[derive(Clone, Copy, PartialEq, Eq, Structural, Debug)]
pub enum Phase {
    Pretrain,
    Train,
    Tune,
}

/// Number of training phases.
pub const PHASE_COUNT: usize = 3;

/// Position of a phase in the order in which phases run.
pub open spec fn phase_index(phase: Phase) -> nat {
    match phase {
        Phase::Pretrain => 0,
        Phase::Train => 1,
        Phase::Tune => 2,
    }
}

/// The phase at a position of the run order (`Tune` past the end).
pub open spec fn phase_at(index: int) -> Phase {
    if index <= 0 {
        Phase::Pretrain
    } else if index == 1 {
        Phase::Train
    } else {
        Phase::Tune
    }
}

/// The lower-case name under which a phase is written on the command line.
pub open spec fn phase_name(phase: Phase) -> Seq<char> {
    match phase {
        Phase::Pretrain => "pretrain"@,
        Phase::Train => "train"@,
        Phase::Tune => "tune"@,
    }
}

impl Phase {
    /// All phases, in the order in which they run.
    pub fn all() -> (phases: Vec<Phase>)
        ensures
            phases@.len() == PHASE_COUNT,
            forall|i: int| 0 <= i < PHASE_COUNT ==> #[trigger] phases@[i] == phase_at(i),
    {
        vec![Phase::Pretrain, Phase::Train, Phase::Tune]
    }

    /// Position of this phase in the run order.
    pub fn index(&self) -> (i: usize)
        ensures
            i == phase_index(*self),
            i < PHASE_COUNT,
    {
        match self {
            Phase::Pretrain => 0,
            Phase::Train => 1,
            Phase::Tune => 2,
        }
    }

    /// The phase at position `index` of the run order.
    pub fn from_index(index: usize) -> (phase: Phase)
        requires
            index < PHASE_COUNT,
        ensures
            phase == phase_at(index as int),
            phase_index(phase) == index,
    {
        if index == 0 {
            Phase::Pretrain
        } else if index == 1 {
            Phase::Train
        } else {
            Phase::Tune
        }
    }

    /// The lower-case name of the phase ("pretrain", "train" or "tune").
    pub fn name(&self) -> (name: &'static str)
        ensures
            name@ == phase_name(*self),
    {
        match self {
            Phase::Pretrain => "pretrain",
            Phase::Train => "train",
            Phase::Tune => "tune",
        }
    }
}

/// Each phase sits at its own position of the run order.
pub proof fn lemma_phase_index_round_trip(phase: Phase)
    ensures
        phase_at(phase_index(phase) as int) == phase,
        phase_index(phase) < PHASE_COUNT,
{
}

/// The batch layout of a schedule and the superbatches it covers: training
/// runs from `start_superbatch` up to `end_superbatch`.
#[derive(Clone, Copy, PartialEq, Eq, Structural, Debug)]
pub struct TrainingSteps {
    pub batch_size: usize,
    pub batches_per_superbatch: usize,
    pub start_superbatch: usize,
    pub end_superbatch: usize,
}

/// One end of a linear WDL (win/draw/loss) weight schedule: either zero or
/// the WDL weight that the scheduler was configured with.
#[derive(Clone, Copy, PartialEq, Eq, Structural, Debug)]
pub enum WdlLevel {
    Zero,
    Target,
}

/// A WDL weight that moves linearly from `start` to `end` over the run.
#[derive(Clone, Copy, PartialEq, Eq, Structural, Debug)]
pub struct LinearWdl {
    pub start: WdlLevel,
    pub end: WdlLevel,
}

/// A learning rate that warms up over `warmup_batches` batches and then
/// decays linearly until `final_superbatch`, between the initial and final
/// rates of the schedule's phase.
#[derive(Clone, Copy, PartialEq, Eq, Structural, Debug)]
pub struct WarmupLinearDecay {
    pub warmup_batches: usize,
    pub final_superbatch: usize,
}

/// The schedule of one training phase. Its learning rates and WDL weight are
/// floating-point values that the caller adds: the rates by `phase`, the
/// weight by the levels of `wdl`.
#[derive(Debug)]
pub struct PhaseSchedule {
    pub phase: Phase,
    pub net_id: String,
    pub steps: TrainingSteps,
    pub wdl: LinearWdl,
    pub lr: WarmupLinearDecay,
    pub save_rate: usize,
}

/// The superbatch at which a phase ends.
pub open spec fn end_superbatch(phase: Phase) -> usize {
    match phase {
        Phase::Pretrain => crate::orchestrator::default::PRETRAIN_END_SUPERBATCH,
        Phase::Train => crate::orchestrator::default::TRAIN_END_SUPERBATCH,
        Phase::Tune => crate::orchestrator::default::TUNE_END_SUPERBATCH,
    }
}

/// The bound below which a phase accepts its starting superbatch. The train
/// phase is held to the tune phase's end.
pub open spec fn resume_limit(phase: Phase) -> usize {
    match phase {
        Phase::Pretrain => crate::orchestrator::default::PRETRAIN_END_SUPERBATCH,
        Phase::Train => crate::orchestrator::default::TUNE_END_SUPERBATCH,
        Phase::Tune => crate::orchestrator::default::TUNE_END_SUPERBATCH,
    }
}

/// The name of the network that a phase trains.
pub open spec fn net_id(phase: Phase) -> Seq<char> {
    match phase {
        Phase::Pretrain => "minke-pretrain"@,
        Phase::Train => "minke-train"@,
        Phase::Tune => "minke-tune"@,
    }
}

/// The WDL weight schedule of a phase: none in pretraining, a ramp up to
/// the configured weight in training, and the configured weight throughout
/// tuning.
pub open spec fn wdl_of(phase: Phase) -> LinearWdl {
    match phase {
        Phase::Pretrain => LinearWdl { start: WdlLevel::Zero, end: WdlLevel::Zero },
        Phase::Train => LinearWdl { start: WdlLevel::Zero, end: WdlLevel::Target },
        Phase::Tune => LinearWdl { start: WdlLevel::Target, end: WdlLevel::Target },
    }
}

/// The message with which a phase refuses a starting superbatch.
pub open spec fn start_error(phase: Phase) -> Seq<char> {
    match phase {
        Phase::Pretrain => "Starting pretrain with a superbatch higher than the PRETRAIN_END_SUPERBATCH:200"@,
        Phase::Train => "Starting train with a superbatch higher than the TRAIN_END_SUPERBATCH:600"@,
        Phase::Tune => "Starting tune with a superbatch higher than the TUNE_END_SUPERBATCH:200"@,
    }
}

/// The batch layout, WDL weight and checkpoint rate that every phase's
/// schedule is built from.
#[derive(Clone, Copy, Debug)]
pub struct Scheduler {
    pub batch_size: usize,
    pub batches_per_superbatch: usize,
    pub save_rate: usize,
}

impl Scheduler {
    /// `schedule` is the schedule of `phase` started at `start_superbatch`.
    pub open spec fn describes(self, phase: Phase, start_superbatch: usize, schedule: PhaseSchedule) -> bool {
        &&& schedule.phase == phase
        &&& schedule.net_id@ == net_id(phase)
        &&& schedule.steps == (TrainingSteps {
            batch_size: self.batch_size,
            batches_per_superbatch: self.batches_per_superbatch,
            start_superbatch,
            end_superbatch: end_superbatch(phase),
        })
        &&& schedule.wdl == wdl_of(phase)
        &&& schedule.lr == (WarmupLinearDecay {
            warmup_batches: self.batches_per_superbatch,
            final_superbatch: end_superbatch(phase),
        })
        &&& schedule.save_rate == self.save_rate
    }

    /// `res` is what `phase`, resumed at `start_superbatch`, gives: a schedule
    /// that `describes` it when the start is below the phase's limit, and
    /// the phase's message otherwise.
    pub open spec fn schedules_as(self, phase: Phase, start_superbatch: usize, res: Result<PhaseSchedule, String>) -> bool {
        &&& (res is Ok <==> start_superbatch < resume_limit(phase))
        &&& (res matches Ok(s) ==> self.describes(phase, start_superbatch, s))
        &&& (res matches Err(m) ==> m@ == start_error(phase))
    }

    /// The schedule of `phase`, resumed at `start_superbatch`. Refused with a
    /// message when `start_superbatch` is not below the phase's limit.
    pub fn get(&self, phase: Phase, start_superbatch: usize) -> (res: Result<PhaseSchedule, String>)
        ensures
            self.schedules_as(phase, start_superbatch, res),
            res matches Ok(s) ==> {
                &&& s.phase == phase
                &&& s.steps.batch_size == self.batch_size
                &&& s.steps.batches_per_superbatch == self.batches_per_superbatch
                &&& s.steps.start_superbatch == start_superbatch
                &&& s.steps.start_superbatch < s.steps.end_superbatch
                &&& s.lr.warmup_batches == self.batches_per_superbatch
                &&& s.lr.final_superbatch == s.steps.end_superbatch
                &&& s.save_rate == self.save_rate
                &&& s.steps.end_superbatch == match phase {
                    Phase::Pretrain => crate::orchestrator::default::PRETRAIN_END_SUPERBATCH,
                    Phase::Train => crate::orchestrator::default::TRAIN_END_SUPERBATCH,
                    Phase::Tune => crate::orchestrator::default::TUNE_END_SUPERBATCH,
                }
                &&& s.net_id@ == match phase {
                    Phase::Pretrain => "minke-pretrain"@,
                    Phase::Train => "minke-train"@,
                    Phase::Tune => "minke-tune"@,
                }
                &&& s.wdl.start == (if phase == Phase::Tune { WdlLevel::Target } else { WdlLevel::Zero })
                &&& s.wdl.end == (if phase == Phase::Pretrain { WdlLevel::Zero } else { WdlLevel::Target })
            },
            res is Ok <==> start_superbatch < match phase {
                Phase::Pretrain => crate::orchestrator::default::PRETRAIN_END_SUPERBATCH,
                Phase::Train => crate::orchestrator::default::TUNE_END_SUPERBATCH,
                Phase::Tune => crate::orchestrator::default::TUNE_END_SUPERBATCH,
            },
    {
        match phase {
            Phase::Pretrain => self.phase_pretrain(start_superbatch),
            Phase::Train => self.phase_train(start_superbatch),
            Phase::Tune => self.phase_tune(start_superbatch),
        }
    }

    fn build(&self, phase: Phase, name: &str, start_superbatch: usize, wdl: LinearWdl) -> (s: PhaseSchedule)
        requires
            name@ == net_id(phase),
            wdl == wdl_of(phase),
        ensures
            self.describes(phase, start_superbatch, s),
    {
        let end: usize = match phase {
            Phase::Pretrain => crate::orchestrator::default::PRETRAIN_END_SUPERBATCH,
            Phase::Train => crate::orchestrator::default::TRAIN_END_SUPERBATCH,
            Phase::Tune => crate::orchestrator::default::TUNE_END_SUPERBATCH,
        };
        PhaseSchedule {
            phase,
            net_id: String::from_str(name),
            steps: TrainingSteps {
                batch_size: self.batch_size,
                batches_per_superbatch: self.batches_per_superbatch,
                start_superbatch,
                end_superbatch: end,
            },
            wdl,
            lr: WarmupLinearDecay { warmup_batches: self.batches_per_superbatch, final_superbatch: end },
            save_rate: self.save_rate,
        }
    }

    fn phase_pretrain(&self, start_superbatch: usize) -> (res: Result<PhaseSchedule, String>)
        ensures
            self.schedules_as(Phase::Pretrain, start_superbatch, res),
    {
        if start_superbatch >= crate::orchestrator::default::PRETRAIN_END_SUPERBATCH {
            return Err(String::from_str(
                "Starting pretrain with a superbatch higher than the PRETRAIN_END_SUPERBATCH:200",
            ));
        }
        Ok(self.build(
            Phase::Pretrain,
            "minke-pretrain",
            start_superbatch,
            LinearWdl { start: WdlLevel::Zero, end: WdlLevel::Zero },
        ))
    }

    fn phase_train(&self, start_superbatch: usize) -> (res: Result<PhaseSchedule, String>)
        ensures
            self.schedules_as(Phase::Train, start_superbatch, res),
    {
        if start_superbatch >= crate::orchestrator::default::TUNE_END_SUPERBATCH {
            return Err(String::from_str(
                "Starting train with a superbatch higher than the TRAIN_END_SUPERBATCH:600",
            ));
        }
        Ok(self.build(
            Phase::Train,
            "minke-train",
            start_superbatch,
            LinearWdl { start: WdlLevel::Zero, end: WdlLevel::Target },
        ))
    }

    fn phase_tune(&self, start_superbatch: usize) -> (res: Result<PhaseSchedule, String>)
        ensures
            self.schedules_as(Phase::Tune, start_superbatch, res),
    {
        if start_superbatch >= crate::orchestrator::default::TUNE_END_SUPERBATCH {
            return Err(String::from_str(
                "Starting tune with a superbatch higher than the TUNE_END_SUPERBATCH:200",
            ));
        }
        Ok(self.build(
            Phase::Tune,
            "minke-tune",
            start_superbatch,
            LinearWdl { start: WdlLevel::Target, end: WdlLevel::Target },
        ))
    }
}

impl Default for Scheduler {
    /// The command line's defaults: batches of 16384 positions, 6104
    /// batches per superbatch and a checkpoint every 10 superbatches.
    fn default() -> (s: Self)
        ensures
            s.batch_size == crate::orchestrator::default::BATCH_SIZE,
            s.batches_per_superbatch == crate::orchestrator::default::BATCHES_PER_SUPERBATCH,
            s.save_rate == crate::orchestrator::default::SAVE_RATE,
    {
        Scheduler {
            batch_size: crate::orchestrator::default::BATCH_SIZE,
            batches_per_superbatch: crate::orchestrator::default::BATCHES_PER_SUPERBATCH,
            save_rate: crate::orchestrator::default::SAVE_RATE,
        }
    }
}

/// Pretraining never weighs WDL: its schedule holds the WDL weight at zero
/// from start to end, whatever the scheduler's settings.
pub proof fn lemma_pretraining_ignores_wdl(
    scheduler: Scheduler,
    start_superbatch: usize,
    schedule: PhaseSchedule,
)
    requires
        scheduler.describes(Phase::Pretrain, start_superbatch, schedule),
    ensures
        schedule.wdl == (LinearWdl { start: WdlLevel::Zero, end: WdlLevel::Zero }),
{
}

/// What a phase gives for a starting superbatch is fixed: two results that
/// both answer `phase` at `start_superbatch` (such as the lookup by phase and
/// the phase's own schedule function) agree in every field.
pub proof fn lemma_phase_result_is_unique(
    scheduler: Scheduler,
    phase: Phase,
    start_superbatch: usize,
    a: Result<PhaseSchedule, String>,
    b: Result<PhaseSchedule, String>,
)
    requires
        scheduler.schedules_as(phase, start_superbatch, a),
        scheduler.schedules_as(phase, start_superbatch, b),
    ensures
        a is Ok <==> b is Ok,
        a matches Ok(x) ==> b matches Ok(y) ==> {
            &&& x.phase == y.phase
            &&& x.net_id@ == y.net_id@
            &&& x.steps == y.steps
            &&& x.wdl == y.wdl
            &&& x.lr == y.lr
            &&& x.save_rate == y.save_rate
        },
        a matches Err(m) ==> b matches Err(n) ==> m@ == n@,
{
}

/// The batch layout and checkpoint rate of a schedule are the scheduler's,
/// in every phase: each phase takes the scheduler's batch size and batches
/// per superbatch as they are, warms its learning rate up over one
/// superbatch, starts where it was asked to, and decays its learning rate
/// until its last superbatch.
pub proof fn lemma_schedule_takes_scheduler_layout(
    scheduler: Scheduler,
    phase: Phase,
    start_superbatch: usize,
    schedule: PhaseSchedule,
)
    requires
        scheduler.describes(phase, start_superbatch, schedule),
    ensures
        schedule.phase == phase,
        schedule.steps.batch_size == scheduler.batch_size,
        schedule.steps.batches_per_superbatch == scheduler.batches_per_superbatch,
        schedule.steps.start_superbatch == start_superbatch,
        schedule.lr.warmup_batches == scheduler.batches_per_superbatch,
        schedule.lr.final_superbatch == schedule.steps.end_superbatch,
        schedule.save_rate == scheduler.save_rate,
{
}

/// Every schedule that a phase accepts ends after it starts: a start below
/// the phase's limit is below the phase's end.
pub proof fn lemma_accepted_start_precedes_end(phase: Phase, start_superbatch: usize)
    requires
        start_superbatch < resume_limit(phase),
    ensures
        start_superbatch < end_superbatch(phase),
{
}

} // verus!
