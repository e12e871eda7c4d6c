//! The plain data filter, without material-count statistics, and the
//! settings of the data loader.

use vstd::prelude::*;

use crate::orchestrator::datafilter::{abs_score, with_move, TrainingEntry};

verus! {

/// Which training positions are kept, by ply, score, move and check status.
#[derive(Clone, Copy, Debug)]
pub struct DataFilter {
    pub min_ply: u16,
    pub max_score: u16,
    pub exclude_in_check: bool,
    pub exclude_special_moves: bool,
    pub exclude_capture: bool,
}

impl DataFilter {
    /// The filter keeps the position.
    pub open spec fn accepts(self, entry: TrainingEntry) -> bool {
        &&& (self.exclude_capture ==> !entry.target_occupied)
        &&& (self.exclude_special_moves ==> entry.normal_move)
        &&& (self.exclude_in_check ==> !entry.in_check)
        &&& entry.ply >= self.min_ply
        &&& abs_score(entry) <= self.max_score
    }

    /// Whether to keep a training position: every enabled exclusion passes,
    /// the ply is at least `min_ply` and the score is at most `max_score` in
    /// absolute value.
    pub fn filter(&self, entry: &TrainingEntry) -> (keep: bool)
        ensures
            keep == self.accepts(*entry),
            keep == {
                &&& (self.exclude_capture ==> !entry.target_occupied)
                &&& (self.exclude_special_moves ==> entry.normal_move)
                &&& (self.exclude_in_check ==> !entry.in_check)
                &&& entry.ply >= self.min_ply
                &&& abs_score(*entry) <= self.max_score
            },
    {
        let mut valid_entry: bool = true;
        if self.exclude_capture {
            valid_entry = valid_entry && !entry.target_occupied;
        }
        if self.exclude_special_moves {
            valid_entry = valid_entry && entry.normal_move;
        }
        if self.exclude_in_check {
            valid_entry = valid_entry && !entry.in_check;
        }
        let abs: u32 = if entry.score < 0 {
            (0i32 - entry.score as i32) as u32
        } else {
            entry.score as u32
        };
        valid_entry && entry.ply >= self.min_ply && abs <= self.max_score as u32
    }
}

/// Each exclusion of the plain filter tests only its own attribute: with
/// captures allowed the decision does not depend on whether the move
/// captures, with special moves allowed not on whether the move is special,
/// and with checks allowed not on whether the side to move is in check.
pub proof fn lemma_exclusions_test_only_their_attribute(filter: DataFilter, entry: TrainingEntry, flag: bool)
    ensures
        !filter.exclude_capture ==> filter.accepts(entry) == filter.accepts(
            with_move(entry, flag, entry.normal_move, entry.in_check),
        ),
        !filter.exclude_special_moves ==> filter.accepts(entry) == filter.accepts(
            with_move(entry, entry.target_occupied, flag, entry.in_check),
        ),
        !filter.exclude_in_check ==> filter.accepts(entry) == filter.accepts(
            with_move(entry, entry.target_occupied, entry.normal_move, flag),
        ),
{
}

/// With the material-count check off, the filter with material statistics
/// keeps exactly the positions that the plain filter with the same settings
/// keeps, whatever the material verdict.
pub proof fn lemma_agrees_without_material_check(
    plain: DataFilter,
    weighted: crate::orchestrator::datafilter::DataFilter,
    entry: TrainingEntry,
    material_verdict: bool,
)
    requires
        !weighted.material_count_filter,
        weighted.min_ply == plain.min_ply,
        weighted.max_score == plain.max_score,
        weighted.exclude_in_check == plain.exclude_in_check,
        weighted.exclude_special_moves == plain.exclude_special_moves,
        weighted.exclude_capture == plain.exclude_capture,
    ensures
        !weighted.consults_material(entry),
        weighted.accepts(entry, material_verdict) == plain.accepts(entry),
{
}

/// A stricter plain filter (a later minimum ply, a smaller score bound and
/// every exclusion of the laxer one) keeps no position that a laxer one drops.
pub proof fn lemma_stricter_filter_keeps_less(strict: DataFilter, lax: DataFilter, entry: TrainingEntry)
    requires
        strict.min_ply >= lax.min_ply,
        strict.max_score <= lax.max_score,
        lax.exclude_in_check ==> strict.exclude_in_check,
        lax.exclude_special_moves ==> strict.exclude_special_moves,
        lax.exclude_capture ==> strict.exclude_capture,
    ensures
        strict.accepts(entry) ==> lax.accepts(entry),
{
}

/// The settings of the data loader.
#[derive(Clone, Copy, Debug)]
pub struct DataLoader {
    /// The size of the loader's read buffer, in megabytes.
    pub buffer_size_mb: usize,
}

} // verus!
