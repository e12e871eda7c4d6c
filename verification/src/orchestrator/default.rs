//! Default values of the network, the data filter, the data loader and the
//! training schedules.

use vstd::prelude::*;

verus! {

// Network
pub const HIDDEN_LAYER_SIZE: usize = 1024;
pub const N_OUTPUT_BUCKETS: usize = 8;
pub const QA: i16 = 255;
pub const QB: i16 = 64;
pub const QAB: i16 = QA * QB;

// Data filter
pub const MIN_PLY: u16 = 16;
pub const MAX_SCORE: u16 = 5000;
pub const EXCLUDE_IN_CHECK: bool = true;
pub const EXCLUDE_SPECIAL_MOVES: bool = true;
pub const EXCLUDE_CAPTURE: bool = true;
pub const OUT_BUCKET_COUNT_FILTER: bool = true;

// Data loader
pub const BUFFER_SIZE_MB: usize = 2048;

// Scheduler
pub const BATCH_SIZE: usize = 16384;
pub const BATCHES_PER_SUPERBATCH: usize = 6104;
pub const SAVE_RATE: usize = 10;

// Pre-train
pub const PRETRAIN_END_SUPERBATCH: usize = 200;

// Train
pub const TRAIN_END_SUPERBATCH: usize = 600;

// Tune
pub const TUNE_END_SUPERBATCH: usize = 200;

/// Number of pieces on a full chess board: the material counts that the
/// material-count filter keeps statistics for.
pub const CHESS_PIECE_COUNT: usize = 32;

} // verus!
