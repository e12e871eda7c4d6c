# nnue_trainer

The planning logic of an orchestrator that trains a chess NNUE network in
three phases (pretrain, train, tune), verified with Verus.

- `src/trainer/scheduler.rs`: the phases and the schedule of each phase,
  with the check of the superbatch a phase is resumed at.
- `src/orchestrator.rs`: the run configuration and the plan of phases that
  a run trains from its checkpoint on.
- `src/orchestrator/datafilter.rs`: the filter of training positions and the
  material-count statistics it keeps.
- `src/orchestrator/dataloader.rs`: the plain filter and the loader settings.
- `src/orchestrator/config.rs`, `src/orchestrator/default.rs`: configuration
  types and default values.
- `src/scheduler.rs`: the single-schedule setup.
- `app/`: the command line, TOML loading, the trainer and data loaders of the
  bullet library, and the floating-point parts (learning rates, WDL weight,
  target distribution of material counts, the random material verdict).
