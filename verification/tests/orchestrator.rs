use nnue_trainer::orchestrator::config;
use nnue_trainer::orchestrator::datafilter::DataFilter;
use nnue_trainer::orchestrator::{CheckpointConfig, DatasetConfig, Orchestrator};
use nnue_trainer::trainer::scheduler::{Phase, Scheduler};

fn datasets() -> DatasetConfig {
    DatasetConfig {
        pre_train: vec!["a.binpack".to_string()],
        train: vec!["b.binpack".to_string(), "c.binpack".to_string()],
        tune: vec!["d.binpack".to_string()],
    }
}

fn orchestrator(phase: Phase, superbatch: usize) -> Orchestrator {
    Orchestrator {
        output_dir: "out".to_string(),
        threads: Orchestrator::default_threads(),
        log_config: false,
        load_checkpoint: CheckpointConfig { phase, superbatch, load: String::new() },
        datasets: datasets(),
        scheduler: Scheduler::default(),
        filter: DataFilter::default(),
        buffer_size_mb: 2048,
    }
}

#[test]
fn checkpoint_default_is_fresh_start() {
    let c = CheckpointConfig::default();
    assert_eq!(c.phase, Phase::Pretrain);
    assert_eq!(c.superbatch, 0);
    assert_eq!(c.load, "");
    let c = config::CheckpointConfig::default();
    assert_eq!(c.phase, Phase::Pretrain);
    assert_eq!(c.superbatch, 0);
    assert_eq!(c.load, "");
}

#[test]
fn default_threads_is_one() {
    assert_eq!(Orchestrator::default_threads(), 1);
}

#[test]
fn datasets_by_phase() {
    let d = datasets();
    assert_eq!(d.for_phase(Phase::Pretrain), &vec!["a.binpack".to_string()]);
    assert_eq!(d.for_phase(Phase::Train).len(), 2);
    assert_eq!(d.for_phase(Phase::Tune), &vec!["d.binpack".to_string()]);
}

#[test]
fn fresh_run_plans_all_phases() {
    let plan = orchestrator(Phase::Pretrain, 0).phase_schedules().unwrap();
    let phases: Vec<Phase> = plan.iter().map(|s| s.phase).collect();
    assert_eq!(phases, vec![Phase::Pretrain, Phase::Train, Phase::Tune]);
    assert!(plan.iter().all(|s| s.steps.start_superbatch == 0));
    let ends: Vec<usize> = plan.iter().map(|s| s.steps.end_superbatch).collect();
    assert_eq!(ends, vec![200, 600, 200]);
}

#[test]
fn resumed_run_starts_at_checkpoint() {
    let plan = orchestrator(Phase::Train, 120).phase_schedules().unwrap();
    assert_eq!(plan.len(), 2);
    assert_eq!(plan[0].phase, Phase::Train);
    assert_eq!(plan[0].steps.start_superbatch, 120);
    assert_eq!(plan[1].phase, Phase::Tune);
    assert_eq!(plan[1].steps.start_superbatch, 0);
    assert_eq!(plan[1].net_id, "minke-tune");
}

#[test]
fn resumed_tune_plans_one_phase() {
    let plan = orchestrator(Phase::Tune, 5).phase_schedules().unwrap();
    assert_eq!(plan.len(), 1);
    assert_eq!(plan[0].steps.start_superbatch, 5);
}

#[test]
fn checkpoint_past_phase_limit_is_refused() {
    let e = orchestrator(Phase::Pretrain, 200).phase_schedules().unwrap_err();
    assert_eq!(e, "Starting pretrain with a superbatch higher than the PRETRAIN_END_SUPERBATCH:200");
    let e = orchestrator(Phase::Train, 450).phase_schedules().unwrap_err();
    assert_eq!(e, "Starting train with a superbatch higher than the TRAIN_END_SUPERBATCH:600");
}

#[test]
fn weights_loaded_only_from_a_configured_path() {
    assert_eq!(CheckpointConfig::default().weights_to_load(), None);
    let c = CheckpointConfig { phase: Phase::Train, superbatch: 3, load: "ckpt/weights.bin".to_string() };
    assert_eq!(c.weights_to_load(), Some("ckpt/weights.bin"));
    assert_eq!(config::CheckpointConfig::default().weights_to_load(), None);
    let c = config::CheckpointConfig { phase: Phase::Tune, superbatch: 0, load: "w".to_string() };
    assert_eq!(c.weights_to_load(), Some("w"));
}
