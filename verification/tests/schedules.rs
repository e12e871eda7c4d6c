use nnue_trainer::orchestrator::default::{
    BATCHES_PER_SUPERBATCH, BATCH_SIZE, PRETRAIN_END_SUPERBATCH, SAVE_RATE, TRAIN_END_SUPERBATCH,
    TUNE_END_SUPERBATCH,
};
use nnue_trainer::scheduler::Scheduler as SingleScheduler;
use nnue_trainer::trainer::scheduler::{
    LinearWdl, Phase, Scheduler, TrainingSteps, WarmupLinearDecay, WdlLevel,
};

fn scheduler() -> Scheduler {
    Scheduler { batch_size: 1024, batches_per_superbatch: 50, save_rate: 5 }
}

#[test]
fn phases_run_in_order() {
    assert_eq!(Phase::all(), vec![Phase::Pretrain, Phase::Train, Phase::Tune]);
    for (i, p) in Phase::all().into_iter().enumerate() {
        assert_eq!(p.index(), i);
        assert_eq!(Phase::from_index(i), p);
    }
}

#[test]
fn phase_names_are_lower_case() {
    assert_eq!(Phase::Pretrain.name(), "pretrain");
    assert_eq!(Phase::Train.name(), "train");
    assert_eq!(Phase::Tune.name(), "tune");
}

#[test]
fn scheduler_default_matches_command_line() {
    let s = Scheduler::default();
    assert_eq!(s.batch_size, 16384);
    assert_eq!(s.batches_per_superbatch, 6104);
    assert_eq!(s.save_rate, 10);
    assert_eq!((BATCH_SIZE, BATCHES_PER_SUPERBATCH, SAVE_RATE), (16384, 6104, 10));
}

#[test]
fn pretrain_schedule() {
    let s = scheduler().get(Phase::Pretrain, 0).unwrap();
    assert_eq!(s.phase, Phase::Pretrain);
    assert_eq!(s.net_id, "minke-pretrain");
    assert_eq!(
        s.steps,
        TrainingSteps { batch_size: 1024, batches_per_superbatch: 50, start_superbatch: 0, end_superbatch: 200 }
    );
    assert_eq!(s.wdl, LinearWdl { start: WdlLevel::Zero, end: WdlLevel::Zero });
    assert_eq!(s.lr, WarmupLinearDecay { warmup_batches: 50, final_superbatch: 200 });
    assert_eq!(s.save_rate, 5);
}

#[test]
fn train_schedule() {
    let s = scheduler().get(Phase::Train, 37).unwrap();
    assert_eq!(s.net_id, "minke-train");
    assert_eq!(s.steps.start_superbatch, 37);
    assert_eq!(s.steps.end_superbatch, TRAIN_END_SUPERBATCH);
    assert_eq!(s.wdl, LinearWdl { start: WdlLevel::Zero, end: WdlLevel::Target });
    assert_eq!(s.lr, WarmupLinearDecay { warmup_batches: 50, final_superbatch: 600 });
}

#[test]
fn tune_schedule() {
    let s = scheduler().get(Phase::Tune, 199).unwrap();
    assert_eq!(s.net_id, "minke-tune");
    assert_eq!(s.steps.start_superbatch, 199);
    assert_eq!(s.steps.end_superbatch, TUNE_END_SUPERBATCH);
    assert_eq!(s.wdl, LinearWdl { start: WdlLevel::Target, end: WdlLevel::Target });
}

#[test]
fn pretrain_refuses_start_at_its_end() {
    let e = scheduler().get(Phase::Pretrain, PRETRAIN_END_SUPERBATCH).unwrap_err();
    assert_eq!(e, "Starting pretrain with a superbatch higher than the PRETRAIN_END_SUPERBATCH:200");
    assert!(scheduler().get(Phase::Pretrain, 199).is_ok());
}

#[test]
fn train_refuses_start_from_tune_end() {
    assert!(scheduler().get(Phase::Train, 199).is_ok());
    let e = scheduler().get(Phase::Train, 200).unwrap_err();
    assert_eq!(e, "Starting train with a superbatch higher than the TRAIN_END_SUPERBATCH:600");
    assert!(scheduler().get(Phase::Train, 599).is_err());
}

#[test]
fn tune_refuses_large_start() {
    let e = scheduler().get(Phase::Tune, usize::MAX).unwrap_err();
    assert_eq!(e, "Starting tune with a superbatch higher than the TUNE_END_SUPERBATCH:200");
}

#[test]
fn accepted_schedules_start_before_they_end() {
    for p in Phase::all() {
        for start in [0usize, 1, 100, 199, 200, 500] {
            if let Ok(s) = scheduler().get(p, start) {
                assert!(s.steps.start_superbatch < s.steps.end_superbatch);
            }
        }
    }
}

#[test]
fn single_schedule() {
    let s = SingleScheduler {
        start_superbatch: 1,
        end_superbatch: 800,
        batch_size: 16384,
        batches_per_superbatch: 6104,
        save_rate: 10,
    }
    .get();
    assert_eq!(s.net_id, "minke");
    assert_eq!(
        s.steps,
        TrainingSteps { batch_size: 16384, batches_per_superbatch: 6104, start_superbatch: 1, end_superbatch: 800 }
    );
    assert_eq!(s.wdl, LinearWdl { start: WdlLevel::Zero, end: WdlLevel::Target });
    assert_eq!(s.lr_final_superbatch, 800);
    assert_eq!(s.save_rate, 10);
}

#[test]
fn pretraining_holds_wdl_at_zero_for_any_scheduler() {
    for s in [scheduler(), Scheduler::default(), Scheduler { batch_size: 1, batches_per_superbatch: 1, save_rate: 1 }] {
        let p = s.get(Phase::Pretrain, 3).unwrap();
        assert_eq!(p.wdl, LinearWdl { start: WdlLevel::Zero, end: WdlLevel::Zero });
    }
}
