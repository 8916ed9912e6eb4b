//! Frame pacing measurement.
//!
//! The target is 120 Hz, an 8.33 ms budget. A target nobody measures is a
//! wish, so the shell keeps a rolling window of inter-frame intervals and can
//! put the worst of them on the status bar. This module keeps the window:
//! which intervals are in it, when it forgets them, how many frames were
//! seen. Intervals are whole nanoseconds on the caller's monotonic clock; the
//! readout's milliseconds are computed from them where the status bar is
//! drawn.

use vstd::prelude::*;
use std::collections::VecDeque;

verus! {

broadcast use {
    vstd::std_specs::vecdeque::group_vec_dequeue_axioms,
    vstd::seq_lib::group_to_multiset_ensures,
};

/// A frame gap longer than this, a second, means the window was occluded or
/// the process stopped, not that rendering is slow.
pub const STALL_NANOS: u64 = 1_000_000_000;

/// The window a default [`FrameStats`] keeps: about 1.5 s at 120 Hz.
pub const DEFAULT_WINDOW: usize = 180;

/// A rolling window of frame intervals.
pub struct FrameStats {
    last: Option<u64>,
    samples: VecDeque<u64>,
    capacity: usize,
    enabled: bool,
    total: u64,
}

/// The window after an interval of `delta` nanoseconds is measured: a stall
/// empties it; otherwise the interval joins it, pushing the oldest out when
/// it is full.
pub open spec fn window_after(samples: Seq<u64>, capacity: nat, delta: u64) -> Seq<u64> {
    if delta > STALL_NANOS {
        Seq::empty()
    } else if samples.len() >= capacity {
        samples.drop_first().push(delta)
    } else {
        samples.push(delta)
    }
}

impl FrameStats {
    /// The intervals in the window, oldest first.
    pub closed spec fn spec_samples(self) -> Seq<u64> {
        self.samples@
    }

    /// How many intervals the window holds at most.
    pub closed spec fn spec_capacity(self) -> nat {
        self.capacity as nat
    }

    /// Whether the readout is shown.
    pub closed spec fn spec_enabled(self) -> bool {
        self.enabled
    }

    /// Frames counted since construction.
    pub closed spec fn spec_total(self) -> u64 {
        self.total
    }

    /// When the last frame boundary was, if there was one since the last
    /// reset.
    pub closed spec fn spec_last(self) -> Option<u64> {
        self.last
    }

    /// The window never outgrows its capacity, which is at least one.
    #[verifier::type_invariant]
    closed spec fn bounded(self) -> bool {
        &&& 1 <= self.capacity
        &&& self.samples@.len() <= self.capacity
    }

    /// A window of `capacity` frames, at least one.
    pub fn new(capacity: usize) -> (stats: FrameStats)
        ensures
            stats.spec_capacity() == if capacity == 0 {
                1
            } else {
                capacity as nat
            },
            stats.spec_samples() == Seq::<u64>::empty(),
            stats.spec_last() is None,
            !stats.spec_enabled(),
            stats.spec_total() == 0,
    {
        let capacity = if capacity == 0 {
            1
        } else {
            capacity
        };
        FrameStats {
            last: None,
            samples: VecDeque::with_capacity(capacity),
            capacity,
            enabled: false,
            total: 0,
        }
    }

    /// How many intervals the window holds at most.
    pub fn capacity(&self) -> (capacity: usize)
        ensures
            capacity == self.spec_capacity(),
            capacity >= 1,
            self.spec_samples().len() <= capacity,
    {
        proof {
            use_type_invariant(self);
        }
        self.capacity
    }

    /// Whether the readout is shown. Measurement runs either way, so turning
    /// it on never shows an empty box.
    pub fn is_enabled(&self) -> (enabled: bool)
        ensures
            enabled == self.spec_enabled(),
    {
        self.enabled
    }

    /// Show or hide the readout.
    pub fn set_enabled(&mut self, enabled: bool)
        ensures
            final(self).spec_enabled() == enabled,
            final(self).spec_samples() == old(self).spec_samples(),
            final(self).spec_capacity() == old(self).spec_capacity(),
            final(self).spec_total() == old(self).spec_total(),
            final(self).spec_last() == old(self).spec_last(),
    {
        proof {
            use_type_invariant(&*self);
        }
        self.enabled = enabled;
    }

    /// Flip the readout and report the new state.
    pub fn toggle(&mut self) -> (enabled: bool)
        ensures
            enabled == !old(self).spec_enabled(),
            final(self).spec_enabled() == enabled,
            final(self).spec_samples() == old(self).spec_samples(),
            final(self).spec_capacity() == old(self).spec_capacity(),
            final(self).spec_total() == old(self).spec_total(),
            final(self).spec_last() == old(self).spec_last(),
    {
        proof {
            use_type_invariant(&*self);
        }
        self.enabled = !self.enabled;
        self.enabled
    }

    /// Frames counted since construction.
    pub fn frame_count(&self) -> (count: u64)
        ensures
            count == self.spec_total(),
    {
        self.total
    }

    /// Record a frame boundary at `now`, nanoseconds on a monotonic clock.
    /// The first boundary after construction or a reset only starts the
    /// clock; every later one measures the interval since the one before
    /// (none, if the clock seems to have gone back). The frame count
    /// saturates rather than wrapping, and the window never holds more than
    /// its capacity.
    pub fn tick_at(&mut self, now: u64)
        ensures
            final(self).spec_total() == if old(self).spec_total() == u64::MAX {
                u64::MAX
            } else {
                (old(self).spec_total() + 1) as u64
            },
            final(self).spec_last() == Some(now),
            final(self).spec_samples() == match old(self).spec_last() {
                Some(last) => window_after(
                    old(self).spec_samples(),
                    old(self).spec_capacity(),
                    if now >= last {
                        (now - last) as u64
                    } else {
                        0
                    },
                ),
                None => old(self).spec_samples(),
            },
            final(self).spec_capacity() == old(self).spec_capacity(),
            final(self).spec_enabled() == old(self).spec_enabled(),
            final(self).spec_samples().len() <= final(self).spec_capacity(),
    {
        proof {
            use_type_invariant(&*self);
        }
        self.total = self.total.saturating_add(1);
        match self.last {
            Some(last) => {
                let delta = now.saturating_sub(last);
                self.push(delta);
            },
            None => {},
        }
        self.last = Some(now);
        proof {
            use_type_invariant(&*self);
        }
    }

    /// Measure one interval of `delta` nanoseconds.
    fn push(&mut self, delta: u64)
        ensures
            final(self).spec_samples() == window_after(
                old(self).spec_samples(),
                old(self).spec_capacity(),
                delta,
            ),
            final(self).spec_capacity() == old(self).spec_capacity(),
            final(self).spec_enabled() == old(self).spec_enabled(),
            final(self).spec_total() == old(self).spec_total(),
            final(self).spec_last() == old(self).spec_last(),
    {
        proof {
            use_type_invariant(&*self);
        }
        // Counting a stall would poison the window for the next second and
        // a half.
        if delta > STALL_NANOS {
            self.samples = VecDeque::new();
            return;
        }
        let mut samples: VecDeque<u64> = VecDeque::new();
        std::mem::swap(&mut samples, &mut self.samples);
        if samples.len() == self.capacity {
            samples.pop_front();
            assert(samples@ =~= old(self).spec_samples().drop_first());
        }
        samples.push_back(delta);
        self.samples = samples;
    }

    /// How many intervals are in the window: never more than its capacity.
    pub fn len(&self) -> (n: usize)
        ensures
            n == self.spec_samples().len(),
            n <= self.spec_capacity(),
    {
        proof {
            use_type_invariant(self);
        }
        self.samples.len()
    }

    /// Whether anything has been measured since the window was last emptied.
    pub fn is_empty(&self) -> (empty: bool)
        ensures
            empty == (self.spec_samples().len() == 0),
    {
        self.samples.len() == 0
    }

    /// The interval at `index` in the window, oldest first.
    pub fn sample(&self, index: usize) -> (nanos: u64)
        requires
            index < self.spec_samples().len(),
        ensures
            nanos == self.spec_samples()[index as int],
    {
        self.samples[index]
    }

    /// The intervals in the window, oldest first.
    pub fn samples(&self) -> (intervals: Vec<u64>)
        ensures
            intervals@ == self.spec_samples(),
    {
        let mut intervals: Vec<u64> = Vec::new();
        let mut i: usize = 0;
        while i < self.samples.len()
            invariant
                i <= self.spec_samples().len(),
                intervals@ == self.spec_samples().take(i as int),
            decreases self.spec_samples().len() - i,
        {
            intervals.push(self.samples[i]);
            assert(self.spec_samples().take(i + 1) =~= self.spec_samples().take(i as int).push(
                self.spec_samples()[i as int],
            ));
            i = i + 1;
        }
        assert(self.spec_samples().take(self.spec_samples().len() as int) =~= self.spec_samples());
        intervals
    }

    /// The sum of the intervals in the window, in nanoseconds.
    pub fn total_nanos(&self) -> (sum: u128)
        ensures
            sum == sum_of(self.spec_samples()),
    {
        proof {
            use_type_invariant(self);
        }
        let mut sum: u128 = 0;
        let mut i: usize = 0;
        while i < self.samples.len()
            invariant
                i <= self.spec_samples().len(),
                sum == sum_of(self.spec_samples().take(i as int)),
                sum <= i * (u64::MAX as int),
                self.spec_samples().len() <= usize::MAX,
            decreases self.spec_samples().len() - i,
        {
            let sample = self.samples[i];
            assert(self.spec_samples().take(i + 1).drop_last() =~= self.spec_samples().take(i as int));
            assert(i * (u64::MAX as int) + u64::MAX <= (usize::MAX as int) * (u64::MAX as int)) by (nonlinear_arith)
                requires
                    i < usize::MAX,
            ;
            assert((usize::MAX as int) * (u64::MAX as int) < u128::MAX) by (nonlinear_arith)
                requires
                    usize::MAX <= u64::MAX,
            ;
            assert((i + 1) * (u64::MAX as int) == i * (u64::MAX as int) + u64::MAX) by (nonlinear_arith);
            sum = sum + sample as u128;
            i = i + 1;
        }
        assert(self.spec_samples().take(self.spec_samples().len() as int) =~= self.spec_samples());
        sum
    }

    /// The intervals in the window, shortest first: the order a quantile is
    /// read from.
    pub fn sorted_samples(&self) -> (sorted: Vec<u64>)
        ensures
            ascending(sorted@),
            sorted@.to_multiset() == self.spec_samples().to_multiset(),
    {
        let ghost all = self.spec_samples();
        let mut sorted: Vec<u64> = Vec::new();
        let mut i: usize = 0;
        assert(all.take(0) =~= Seq::<u64>::empty());
        while i < self.samples.len()
            invariant
                all == self.spec_samples(),
                i <= all.len(),
                ascending(sorted@),
                sorted@.to_multiset() == all.take(i as int).to_multiset(),
            decreases all.len() - i,
        {
            let x = self.samples[i];
            let mut j: usize = 0;
            while j < sorted.len() && sorted[j] <= x
                invariant
                    j <= sorted@.len(),
                    forall|k: int| 0 <= k < j ==> sorted@[k] <= x,
                decreases sorted@.len() - j,
            {
                j = j + 1;
            }
            let ghost before = sorted@;
            sorted.insert(j, x);
            assert(sorted@ == before.insert(j as int, x));
            assert forall|a: int, b: int| 0 <= a <= b < sorted@.len() implies sorted@[a] <= sorted@[b] by {
                if a < j && b > j {
                    assert(sorted@[a] == before[a]);
                    assert(sorted@[b] == before[b - 1]);
                } else if a < j && b == j {
                    assert(sorted@[a] == before[a]);
                } else if a < j {
                    assert(sorted@[a] == before[a]);
                    assert(sorted@[b] == before[b]);
                } else if a == j && b > j {
                    assert(sorted@[b] == before[b - 1]);
                    assert(j < before.len());
                    assert(before[j as int] > x);
                } else if a > j {
                    assert(sorted@[a] == before[a - 1]);
                    assert(sorted@[b] == before[b - 1]);
                }
            }
            assert(all.take(i + 1) =~= all.take(i as int).push(x));
            i = i + 1;
        }
        assert(all.take(all.len() as int) =~= all);
        sorted
    }

    /// Forget the window, for instance after a resize storm; the next frame
    /// boundary only restarts the clock.
    pub fn reset(&mut self)
        ensures
            final(self).spec_samples() == Seq::<u64>::empty(),
            final(self).spec_last() is None,
            final(self).spec_capacity() == old(self).spec_capacity(),
            final(self).spec_enabled() == old(self).spec_enabled(),
            final(self).spec_total() == old(self).spec_total(),
    {
        proof {
            use_type_invariant(&*self);
        }
        self.samples = VecDeque::new();
        self.last = None;
    }
}

impl Default for FrameStats {
    /// A window of [`DEFAULT_WINDOW`] frames.
    fn default() -> (stats: FrameStats)
        ensures
            stats.spec_capacity() == DEFAULT_WINDOW,
            stats.spec_samples() == Seq::<u64>::empty(),
            stats.spec_last() is None,
            !stats.spec_enabled(),
            stats.spec_total() == 0,
    {
        FrameStats::new(DEFAULT_WINDOW)
    }
}

/// Whether `s` runs from shortest to longest.
pub open spec fn ascending(s: Seq<u64>) -> bool {
    forall|i: int, j: int| 0 <= i <= j < s.len() ==> s[i] <= s[j]
}

/// The sum of `samples`.
pub open spec fn sum_of(samples: Seq<u64>) -> int
    decreases samples.len(),
{
    if samples.len() == 0 {
        0
    } else {
        sum_of(samples.drop_last()) + samples.last()
    }
}

/// The window never holds more intervals than its capacity, whatever was
/// measured: an interval joining a full window pushes the oldest out, and a
/// stall empties it.
pub proof fn lemma_window_bounded(samples: Seq<u64>, capacity: nat, delta: u64)
    requires
        1 <= capacity,
        samples.len() <= capacity,
    ensures
        window_after(samples, capacity, delta).len() <= capacity,
        delta > STALL_NANOS ==> window_after(samples, capacity, delta).len() == 0,
        delta <= STALL_NANOS ==> window_after(samples, capacity, delta).last() == delta,
{
}

/// The last `capacity` of `intervals`, or all of them when there are fewer.
pub open spec fn latest(intervals: Seq<u64>, capacity: nat) -> Seq<u64> {
    if intervals.len() > capacity {
        intervals.skip(intervals.len() - capacity)
    } else {
        intervals
    }
}

/// The window after measuring `intervals` one after another, starting from
/// an empty one.
pub open spec fn window_over(capacity: nat, intervals: Seq<u64>) -> Seq<u64>
    decreases intervals.len(),
{
    if intervals.len() == 0 {
        Seq::empty()
    } else {
        window_after(window_over(capacity, intervals.drop_last()), capacity, intervals.last())
    }
}

/// An interval that is no stall joins the window as its newest, and when the
/// window was full the oldest one leaves: what was measured and the new
/// interval, less whatever no longer fits.
pub proof fn lemma_interval_joins_window(samples: Seq<u64>, capacity: nat, delta: u64)
    requires
        1 <= capacity,
        samples.len() <= capacity,
        delta <= STALL_NANOS,
    ensures
        window_after(samples, capacity, delta) == latest(samples.push(delta), capacity),
{
    if samples.len() >= capacity {
        assert(samples.drop_first().push(delta) =~= samples.push(delta).skip(1));
    }
}

/// Over any run of intervals with no stall among them, the window holds
/// exactly the last `capacity` of them, oldest first.
pub proof fn lemma_window_is_latest(capacity: nat, intervals: Seq<u64>)
    requires
        1 <= capacity,
        forall|i: int| 0 <= i < intervals.len() ==> #[trigger] intervals[i] <= STALL_NANOS,
    ensures
        window_over(capacity, intervals) == latest(intervals, capacity),
    decreases intervals.len(),
{
    if intervals.len() > 0 {
        let before = intervals.drop_last();
        lemma_window_is_latest(capacity, before);
        let w = latest(before, capacity);
        assert(intervals.last() == intervals[intervals.len() - 1]);
        lemma_interval_joins_window(w, capacity, intervals.last());
        assert(latest(w.push(intervals.last()), capacity) =~= latest(intervals, capacity));
    }
}

} // verus!
