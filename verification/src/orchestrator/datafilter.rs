//! Which training positions are kept: the data filter, and the statistics
//! of material counts that its material-count check is drawn from.

use vstd::prelude::*;

use crate::orchestrator::default::CHESS_PIECE_COUNT;

verus! {

/// What the data filter reads of a training position.
#[derive(Clone, Copy, PartialEq, Eq, Structural, Debug)]
pub struct TrainingEntry {
    /// The ply (half-move number) at which the position occurs.
    pub ply: u16,
    /// The evaluation of the position.
    pub score: i16,
    /// The number of pieces on the board, kings included.
    pub piece_count: u32,
    /// The square that the recorded move lands on holds a piece.
    pub target_occupied: bool,
    /// The recorded move is a normal move: no promotion, castling or en passant.
    pub normal_move: bool,
    /// The side to move is in check.
    pub in_check: bool,
}

/// The absolute value of a position's score.
pub open spec fn abs_score(entry: TrainingEntry) -> int {
    if entry.score < 0 {
        -entry.score
    } else {
        entry.score as int
    }
}

/// The material bucket of a position: its piece count less one.
pub open spec fn material_index(entry: TrainingEntry) -> int {
    entry.piece_count - 1
}

/// What the material-count statistics show once a position was counted: its
/// bucket, how many positions fell in that bucket so far, and how many
/// positions were counted in all.
#[derive(Clone, Copy, PartialEq, Eq, Structural, Debug)]
pub struct MaterialObservation {
    pub material_index: usize,
    pub count: u64,
    pub total: u64,
}

/// The sum of a sequence of counters.
pub open spec fn seq_sum(s: Seq<u64>) -> int
    decreases s.len(),
{
    if s.len() == 0 {
        0
    } else {
        seq_sum(s.drop_last()) + s.last()
    }
}

/// Raising one counter raises the sum by as much.
pub proof fn lemma_sum_update(s: Seq<u64>, i: int, v: u64)
    requires
        0 <= i < s.len(),
    ensures
        seq_sum(s.update(i, v)) == seq_sum(s) - s[i] + v,
    decreases s.len(),
{
    let t = s.update(i, v);
    if i == s.len() - 1 {
        assert(t.drop_last() =~= s.drop_last());
    } else {
        assert(t.drop_last() =~= s.drop_last().update(i, v));
        lemma_sum_update(s.drop_last(), i, v);
    }
}

/// A sum of counters is never negative.
pub proof fn lemma_sum_nonnegative(s: Seq<u64>)
    ensures
        0 <= seq_sum(s),
    decreases s.len(),
{
    if s.len() > 0 {
        lemma_sum_nonnegative(s.drop_last());
    }
}

/// No counter exceeds the sum.
pub proof fn lemma_element_le_sum(s: Seq<u64>, i: int)
    requires
        0 <= i < s.len(),
    ensures
        s[i] <= seq_sum(s),
    decreases s.len(),
{
    lemma_sum_nonnegative(s.drop_last());
    if i < s.len() - 1 {
        lemma_element_le_sum(s.drop_last(), i);
    }
}

/// How often `bucket` occurs in a sequence of recorded buckets.
pub open spec fn occurrences(recorded: Seq<usize>, bucket: usize) -> nat
    decreases recorded.len(),
{
    if recorded.len() == 0 {
        0
    } else {
        occurrences(recorded.drop_last(), bucket) + if recorded.last() == bucket {
            1nat
        } else {
            0nat
        }
    }
}

/// How many positions of each material count the material-count check has
/// seen, one counter per piece count from 1 to 32, and how many in all.
pub struct MaterialCountTracker {
    counts: Vec<u64>,
    total: u64,
    /// The buckets of the positions counted so far, in the order counted.
    recorded: Ghost<Seq<usize>>,
}

impl View for MaterialCountTracker {
    type V = Seq<u64>;

    /// The counter of each material bucket.
    closed spec fn view(&self) -> Seq<u64> {
        self.counts@
    }
}

impl MaterialCountTracker {
    /// One counter per bucket; each counter is the number of counted
    /// positions in its bucket, the total is the number of counted positions,
    /// and so the total is the sum of the counters.
    pub closed spec fn wf(self) -> bool {
        &&& self.counts@.len() == CHESS_PIECE_COUNT
        &&& seq_sum(self.counts@) == self.total
        &&& self.total == self.recorded@.len()
        &&& forall|k: int| 0 <= k < self.recorded@.len() ==> #[trigger] self.recorded@[k] < CHESS_PIECE_COUNT
        &&& forall|j: int|
            0 <= j < CHESS_PIECE_COUNT ==> #[trigger] self.counts@[j] == occurrences(self.recorded@, j as usize)
    }

    /// The buckets of the positions counted so far, in the order counted.
    pub closed spec fn history(self) -> Seq<usize> {
        self.recorded@
    }

    /// The number of positions counted in all.
    pub closed spec fn total_count(self) -> u64 {
        self.total
    }

    /// Statistics with nothing counted yet.
    pub fn new() -> (t: Self)
        ensures
            t.wf(),
            t@ == Seq::new(CHESS_PIECE_COUNT as nat, |i: int| 0u64),
            t.total_count() == 0,
            t.history() == Seq::<usize>::empty(),
    {
        let mut counts: Vec<u64> = Vec::new();
        let mut k: usize = 0;
        while k < CHESS_PIECE_COUNT
            invariant
                k <= CHESS_PIECE_COUNT,
                counts@ == Seq::new(k as nat, |i: int| 0u64),
                seq_sum(counts@) == 0,
            decreases CHESS_PIECE_COUNT - k,
        {
            let ghost before = counts@;
            counts.push(0);
            assert(counts@.drop_last() =~= before);
            assert(counts@ =~= Seq::new((k + 1) as nat, |i: int| 0u64));
            k = k + 1;
        }
        MaterialCountTracker { counts, total: 0, recorded: Ghost(Seq::empty()) }
    }

    /// The number of positions counted in the bucket `material_index`.
    pub fn count(&self, material_index: usize) -> (c: u64)
        requires
            self.wf(),
            material_index < CHESS_PIECE_COUNT,
        ensures
            c == self@[material_index as int],
    {
        self.counts[material_index]
    }

    /// The number of positions counted in all.
    pub fn total(&self) -> (t: u64)
        ensures
            t == self.total_count(),
    {
        self.total
    }

    /// Counts one more position in the bucket `material_index`, and reports
    /// the bucket's count and the total after counting it.
    pub fn record(&mut self, material_index: usize) -> (obs: MaterialObservation)
        requires
            old(self).wf(),
            material_index < CHESS_PIECE_COUNT,
            old(self).total_count() < u64::MAX,
        ensures
            final(self).wf(),
            final(self)@ == old(self)@.update(
                material_index as int,
                (old(self)@[material_index as int] + 1) as u64,
            ),
            final(self).total_count() == old(self).total_count() + 1,
            final(self).history() == old(self).history().push(material_index),
            obs == (MaterialObservation {
                material_index,
                count: final(self)@[material_index as int],
                total: final(self).total_count(),
            }),
            1 <= obs.count <= obs.total,
    {
        proof {
            lemma_element_le_sum(self.counts@, material_index as int);
        }
        let c: u64 = self.counts[material_index] + 1;
        proof {
            lemma_sum_update(self.counts@, material_index as int, c);
        }
        let ghost old_recorded = self.recorded@;
        let ghost old_counts = self.counts@;
        self.counts.set(material_index, c);
        self.total = self.total + 1;
        self.recorded = Ghost(old_recorded.push(material_index));
        proof {
            lemma_element_le_sum(self.counts@, material_index as int);
            assert(self.recorded@.drop_last() =~= old_recorded);
            assert forall|j: int| 0 <= j < CHESS_PIECE_COUNT implies #[trigger] self.counts@[j]
                == occurrences(self.recorded@, j as usize) by {
                assert(old_counts[j] == occurrences(old_recorded, j as usize));
            }
        }
        MaterialObservation { material_index, count: c, total: self.total }
    }
}

/// The statistics always add up: each bucket's counter is the number of
/// counted positions that fell in that bucket, the total is the number of
/// counted positions and the sum of the counters, and no bucket holds more
/// than the total.
pub proof fn lemma_counts_add_up(t: MaterialCountTracker, material_index: int)
    requires
        t.wf(),
        0 <= material_index < CHESS_PIECE_COUNT,
    ensures
        t@.len() == CHESS_PIECE_COUNT,
        t@[material_index] == occurrences(t.history(), material_index as usize),
        t.total_count() == t.history().len(),
        seq_sum(t@) == t.total_count(),
        t@[material_index] <= t.total_count(),
{
    lemma_element_le_sum(t@, material_index);
}

/// Which training positions are kept.
#[derive(Clone, Copy, Debug)]
pub struct DataFilter {
    /// Positions before this ply are dropped.
    pub min_ply: u16,
    /// Positions whose score exceeds this in absolute value are dropped.
    pub max_score: u16,
    /// Drop positions whose side to move is in check.
    pub exclude_in_check: bool,
    /// Drop positions whose move is a promotion, castling or en passant.
    pub exclude_special_moves: bool,
    /// Drop positions whose move captures.
    pub exclude_capture: bool,
    /// Consult the material-count statistics.
    pub material_count_filter: bool,
}

impl Default for DataFilter {
    /// Positions from ply 16 with scores up to 5000, with every exclusion
    /// and the material-count check on.
    fn default() -> (f: Self)
        ensures
            f.min_ply == crate::orchestrator::default::MIN_PLY,
            f.max_score == crate::orchestrator::default::MAX_SCORE,
            f.exclude_in_check == crate::orchestrator::default::EXCLUDE_IN_CHECK,
            f.exclude_special_moves == crate::orchestrator::default::EXCLUDE_SPECIAL_MOVES,
            f.exclude_capture == crate::orchestrator::default::EXCLUDE_CAPTURE,
            f.material_count_filter == crate::orchestrator::default::OUT_BUCKET_COUNT_FILTER,
    {
        DataFilter {
            min_ply: crate::orchestrator::default::MIN_PLY,
            max_score: crate::orchestrator::default::MAX_SCORE,
            exclude_in_check: crate::orchestrator::default::EXCLUDE_IN_CHECK,
            exclude_special_moves: crate::orchestrator::default::EXCLUDE_SPECIAL_MOVES,
            exclude_capture: crate::orchestrator::default::EXCLUDE_CAPTURE,
            material_count_filter: crate::orchestrator::default::OUT_BUCKET_COUNT_FILTER,
        }
    }
}

impl DataFilter {
    /// The position is late enough and its score small enough.
    pub open spec fn passes_position_checks(self, entry: TrainingEntry) -> bool {
        &&& entry.ply >= self.min_ply
        &&& abs_score(entry) <= self.max_score
    }

    /// The position's move and check status pass every enabled exclusion.
    pub open spec fn passes_move_checks(self, entry: TrainingEntry) -> bool {
        &&& (self.exclude_capture ==> !entry.target_occupied)
        &&& (self.exclude_special_moves ==> entry.normal_move)
        &&& (self.exclude_in_check ==> !entry.in_check)
    }

    /// The filter counts the position in the material statistics and asks
    /// for a material verdict on it.
    pub open spec fn consults_material(self, entry: TrainingEntry) -> bool {
        self.passes_position_checks(entry) && self.material_count_filter
    }

    /// The filter keeps the position, given the material verdict.
    pub open spec fn accepts(self, entry: TrainingEntry, material_verdict: bool) -> bool {
        &&& self.passes_position_checks(entry)
        &&& (self.material_count_filter ==> material_verdict)
        &&& self.passes_move_checks(entry)
    }

    /// Whether `filter` counts this position in the material statistics and
    /// asks for a material verdict on it.
    pub fn checks_material(&self, entry: &TrainingEntry) -> (consulted: bool)
        ensures
            consulted == self.consults_material(*entry),
            consulted == (entry.ply >= self.min_ply && abs_score(*entry) <= self.max_score
                && self.material_count_filter),
    {
        let abs: u32 = if entry.score < 0 {
            (0i32 - entry.score as i32) as u32
        } else {
            entry.score as u32
        };
        entry.ply >= self.min_ply && abs <= self.max_score as u32 && self.material_count_filter
    }

    /// The first step of filtering a training position: if its ply and
    /// score pass and the material-count check is on, the position is counted
    /// in `tracker` and the statistics it then shows are returned, for the
    /// caller to draw one material verdict on; otherwise nothing is counted.
    pub fn count_material(&self, entry: &TrainingEntry, tracker: &mut MaterialCountTracker) -> (obs:
        Option<MaterialObservation>)
        requires
            old(tracker).wf(),
            self.consults_material(*entry) ==> {
                &&& 1 <= entry.piece_count <= CHESS_PIECE_COUNT
                &&& old(tracker).total_count() < u64::MAX
            },
        ensures
            final(tracker).wf(),
            obs is Some <==> self.consults_material(*entry),
            obs is Some <==> (entry.ply >= self.min_ply && abs_score(*entry) <= self.max_score
                && self.material_count_filter),
            !self.consults_material(*entry) ==> *final(tracker) == *old(tracker),
            self.consults_material(*entry) ==> {
                let i = material_index(*entry);
                &&& final(tracker)@ == old(tracker)@.update(i, (old(tracker)@[i] + 1) as u64)
                &&& final(tracker).total_count() == old(tracker).total_count() + 1
                &&& final(tracker).history() == old(tracker).history().push(i as usize)
                &&& obs == Some(
                    MaterialObservation {
                        material_index: i as usize,
                        count: final(tracker)@[i],
                        total: final(tracker).total_count(),
                    },
                )
            },
    {
        if self.checks_material(entry) {
            let index: usize = (entry.piece_count - 1) as usize;
            Some(tracker.record(index))
        } else {
            None
        }
    }

    /// The second step of filtering a training position: whether to keep it,
    /// given the one material verdict drawn on what `count_material`
    /// returned (the verdict is not read when the material check is off or
    /// the ply or score fail). Kept when the ply and score pass, the verdict
    /// says keep if the material check is on, and every enabled move and
    /// check exclusion passes.
    pub fn filter(&self, entry: &TrainingEntry, material_verdict: bool) -> (keep: bool)
        ensures
            keep == self.accepts(*entry, material_verdict),
            keep == {
                &&& entry.ply >= self.min_ply
                &&& abs_score(*entry) <= self.max_score
                &&& (self.material_count_filter ==> material_verdict)
                &&& (self.exclude_capture ==> !entry.target_occupied)
                &&& (self.exclude_special_moves ==> entry.normal_move)
                &&& (self.exclude_in_check ==> !entry.in_check)
            },
    {
        let abs: u32 = if entry.score < 0 {
            (0i32 - entry.score as i32) as u32
        } else {
            entry.score as u32
        };
        if !(entry.ply >= self.min_ply && abs <= self.max_score as u32) {
            return false;
        }
        if self.material_count_filter && !material_verdict {
            return false;
        }
        (!self.exclude_capture || !entry.target_occupied) && (!self.exclude_special_moves
            || entry.normal_move) && (!self.exclude_in_check || !entry.in_check)
    }
}

/// The material verdict matters only for positions whose material was
/// counted: for any other position the filter keeps or drops it whatever
/// the verdict.
pub proof fn lemma_verdict_read_only_when_counted(filter: DataFilter, entry: TrainingEntry)
    requires
        !filter.consults_material(entry),
    ensures
        filter.accepts(entry, true) == filter.accepts(entry, false),
{
}

/// The entry with its capture, special-move and check status replaced.
pub open spec fn with_move(entry: TrainingEntry, target_occupied: bool, normal_move: bool, in_check: bool) -> TrainingEntry {
    TrainingEntry { ply: entry.ply, score: entry.score, piece_count: entry.piece_count, target_occupied, normal_move, in_check }
}

/// Whether a position is counted in the material statistics depends only on
/// its ply, its score and the material check: exactly the positions whose ply
/// is at least the minimum and whose score is within the bound in absolute
/// value are counted when the check is on, whatever their move captures,
/// whether it is special and whether the side to move is in check.
pub proof fn lemma_counting_ignores_move(
    filter: DataFilter,
    entry: TrainingEntry,
    target_occupied: bool,
    normal_move: bool,
    in_check: bool,
)
    ensures
        filter.consults_material(entry) == (entry.ply >= filter.min_ply && abs_score(entry)
            <= filter.max_score && filter.material_count_filter),
        filter.consults_material(entry) == filter.consults_material(
            with_move(entry, target_occupied, normal_move, in_check),
        ),
{
}

/// Each exclusion tests only its own attribute: with captures allowed the
/// decision does not depend on whether the move captures, with special
/// moves allowed it does not depend on whether the move is special, and
/// with checks allowed it does not depend on whether the side to move is in
/// check; this for every material setting and verdict.
pub proof fn lemma_exclusions_test_only_their_attribute(
    filter: DataFilter,
    entry: TrainingEntry,
    material_verdict: bool,
    flag: bool,
)
    ensures
        !filter.exclude_capture ==> filter.accepts(entry, material_verdict) == filter.accepts(
            with_move(entry, flag, entry.normal_move, entry.in_check),
            material_verdict,
        ),
        !filter.exclude_special_moves ==> filter.accepts(entry, material_verdict)
            == filter.accepts(with_move(entry, entry.target_occupied, flag, entry.in_check), material_verdict),
        !filter.exclude_in_check ==> filter.accepts(entry, material_verdict) == filter.accepts(
            with_move(entry, entry.target_occupied, entry.normal_move, flag),
            material_verdict,
        ),
{
}

/// `strict` is at least as strict as `lax`: a later minimum ply, a smaller
/// score bound, and every check that `lax` makes.
pub open spec fn at_least_as_strict(strict: DataFilter, lax: DataFilter) -> bool {
    &&& strict.min_ply >= lax.min_ply
    &&& strict.max_score <= lax.max_score
    &&& (lax.exclude_in_check ==> strict.exclude_in_check)
    &&& (lax.exclude_special_moves ==> strict.exclude_special_moves)
    &&& (lax.exclude_capture ==> strict.exclude_capture)
    &&& (lax.material_count_filter ==> strict.material_count_filter)
}

/// A stricter filter keeps no position that a laxer one drops, given the
/// same material verdict.
pub proof fn lemma_stricter_filter_keeps_less(
    strict: DataFilter,
    lax: DataFilter,
    entry: TrainingEntry,
    material_verdict: bool,
)
    requires
        at_least_as_strict(strict, lax),
    ensures
        strict.accepts(entry, material_verdict) ==> lax.accepts(entry, material_verdict),
{
}

} // verus!
