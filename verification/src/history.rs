//! Per-entity movement history: a bounded sliding window of recent
//! horizontal displacement magnitudes with an incrementally maintained
//! running sum, the last vertical displacement, and a tick counter.

use crate::units::{DELTA_LIMIT_MILLIS, MAG_LIMIT_MILLIS};
use vstd::prelude::*;

verus! {

/// Number of samples the magnitude window retains; older samples are
/// evicted first.
pub const WINDOW_CAP: usize = 20;

/// The sum of a sequence of magnitudes, as an unbounded integer.
pub open spec fn sum_seq(s: Seq<i64>) -> int
    decreases s.len(),
{
    if s.len() == 0 {
        0
    } else {
        sum_seq(s.drop_last()) + s.last()
    }
}

/// Appending a sample adds it to the sum.
pub proof fn lemma_sum_seq_push(s: Seq<i64>, v: i64)
    ensures
        sum_seq(s.push(v)) == sum_seq(s) + v,
{
    assert(s.push(v).drop_last() =~= s);
}

/// Evicting the oldest sample subtracts it from the sum.
pub proof fn lemma_sum_seq_remove_first(s: Seq<i64>)
    requires
        s.len() > 0,
    ensures
        sum_seq(s.subrange(1, s.len() as int)) == sum_seq(s) - s[0],
    decreases s.len(),
{
    let t = s.subrange(1, s.len() as int);
    if s.len() == 1 {
        assert(t =~= Seq::<i64>::empty());
    } else {
        lemma_sum_seq_remove_first(s.drop_last());
        assert(t.drop_last() =~= s.drop_last().subrange(1, s.drop_last().len() as int));
        assert(t.last() == s.last());
        assert(sum_seq(t) == sum_seq(t.drop_last()) + t.last());
        assert(sum_seq(t.drop_last()) == sum_seq(s.drop_last()) - s[0]);
        assert(sum_seq(s) == sum_seq(s.drop_last()) + s.last());
    }
}

/// A sequence of samples drawn from `[0, m]` sums to within `[0, len * m]`.
pub proof fn lemma_sum_seq_bounds(s: Seq<i64>, m: int)
    requires
        forall|i: int| 0 <= i < s.len() ==> 0 <= #[trigger] s[i] <= m,
    ensures
        0 <= sum_seq(s) <= s.len() * m,
    decreases s.len(),
{
    if s.len() > 0 {
        lemma_sum_seq_bounds(s.drop_last(), m);
        assert(s.len() * m == (s.len() - 1) * m + m) by (nonlinear_arith);
    }
}

/// One entity's recent movement, created on first observation of that
/// entity and advanced only by the committer after a validated move.
#[derive(Clone, Debug)]
pub struct MovementHistory {
    pub last_vertical_delta: i64,
    pub horizontal_magnitudes: Vec<i64>,
    pub running_sum_of_magnitudes: i64,
    pub tick_count: u32,
}

impl MovementHistory {
    /// Well-formedness: the window never exceeds its capacity, every
    /// sample is a plausible single-tick magnitude, the recorded vertical
    /// delta is a plausible single-tick delta, and the running sum equals
    /// the exact sum of the window's current samples.
    pub open spec fn wf(self) -> bool {
        &&& self.horizontal_magnitudes@.len() <= WINDOW_CAP
        &&& forall|i: int|
            0 <= i < self.horizontal_magnitudes@.len() ==> 0 <= #[trigger] self.horizontal_magnitudes@[i]
                <= MAG_LIMIT_MILLIS
        &&& -DELTA_LIMIT_MILLIS <= self.last_vertical_delta <= DELTA_LIMIT_MILLIS
        &&& self.running_sum_of_magnitudes == sum_seq(self.horizontal_magnitudes@)
    }

    /// The window after a sample is pushed: the sample is appended, and
    /// the oldest sample leaves once the capacity would be exceeded.
    pub open spec fn window_after(w: Seq<i64>, m: i64) -> Seq<i64> {
        if w.len() < WINDOW_CAP {
            w.push(m)
        } else {
            w.subrange(1, w.len() as int).push(m)
        }
    }

    /// The history of a freshly observed entity: nothing recorded yet.
    pub fn new() -> (h: MovementHistory)
        ensures
            h.wf(),
            h.last_vertical_delta == 0,
            h.horizontal_magnitudes@ == Seq::<i64>::empty(),
            h.running_sum_of_magnitudes == 0,
            h.tick_count == 0,
    {
        MovementHistory {
            last_vertical_delta: 0,
            horizontal_magnitudes: Vec::new(),
            running_sum_of_magnitudes: 0,
            tick_count: 0,
        }
    }

    /// Records one validated move: remembers its vertical delta, pushes
    /// its horizontal magnitude onto the window (adding it to the running
    /// sum, and evicting and subtracting the oldest sample if the window
    /// would exceed its capacity), and counts the tick.
    pub fn advance(&mut self, vertical_delta: i64, magnitude: i64)
        requires
            old(self).wf(),
            0 <= magnitude <= MAG_LIMIT_MILLIS,
            -DELTA_LIMIT_MILLIS <= vertical_delta <= DELTA_LIMIT_MILLIS,
            old(self).tick_count < u32::MAX,
        ensures
            final(self).wf(),
            final(self).last_vertical_delta == vertical_delta,
            final(self).tick_count == old(self).tick_count + 1,
            final(self).horizontal_magnitudes@ == Self::window_after(
                old(self).horizontal_magnitudes@,
                magnitude,
            ),
            final(self).running_sum_of_magnitudes == sum_seq(final(self).horizontal_magnitudes@),
    {
        self.last_vertical_delta = vertical_delta;
        proof {
            lemma_sum_seq_bounds(self.horizontal_magnitudes@, MAG_LIMIT_MILLIS as int);
            lemma_sum_seq_push(self.horizontal_magnitudes@, magnitude);
        }
        self.horizontal_magnitudes.push(magnitude);
        self.running_sum_of_magnitudes = self.running_sum_of_magnitudes + magnitude;
        self.tick_count = self.tick_count + 1;
        if self.horizontal_magnitudes.len() > WINDOW_CAP {
            proof {
                lemma_sum_seq_remove_first(self.horizontal_magnitudes@);
                lemma_sum_seq_bounds(
                    self.horizontal_magnitudes@.subrange(
                        1,
                        self.horizontal_magnitudes@.len() as int,
                    ),
                    MAG_LIMIT_MILLIS as int,
                );
            }
            let evicted: i64 = self.horizontal_magnitudes.remove(0);
            self.running_sum_of_magnitudes = self.running_sum_of_magnitudes - evicted;
            proof {
                assert(self.horizontal_magnitudes@ =~= Self::window_after(
                    old(self).horizontal_magnitudes@,
                    magnitude,
                ));
            }
        }
    }
}

} // verus!
