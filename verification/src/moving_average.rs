//! Incremental, O(1)-memory running average of vertical-speed samples.

use vstd::prelude::*;
use crate::arith::{div_trunc, in_range, lemma_div_trunc_bounds, VALUE_BOUND};

verus! {

/// Maintains a running average of the samples fed to `add`.
///
/// The divisor grows with each sample until it reaches `max_counter` and then
/// stays there, so the recurrence turns into an exponential moving average
/// with smoothing factor `1 / max_counter`: older samples are never evicted,
/// their influence just decays geometrically. This shape is deliberate — it
/// sets how quickly alerts react — and must not be replaced by a ring-buffer
/// average.
#[derive(Clone, Copy, Debug)]
pub struct MovingAverage {
    pub max_counter: usize,
    pub counter: usize,
    pub average: i64,
}

/// One step of the averaging recurrence with divisor `n`:
/// the average moves toward `x` by `(x - avg) / n`, rounded toward zero.
pub open spec fn avg_step(avg: int, x: int, n: int) -> int
    recommends
        n >= 1,
{
    avg + div_trunc(x - avg, n)
}

impl MovingAverage {
    /// Internal invariant: a positive window, a counter that never passes it,
    /// a bounded average, and a zero average before the first sample.
    pub open spec fn wf(self) -> bool {
        &&& 1 <= self.max_counter <= VALUE_BOUND
        &&& self.counter <= self.max_counter
        &&& in_range(self.average as int)
        &&& self.counter == 0 ==> self.average == 0
    }

    /// How many samples the filter is tracking so far.
    pub open spec fn count(self) -> int {
        self.counter as int
    }

    /// The configured window size.
    pub open spec fn window(self) -> int {
        self.max_counter as int
    }

    /// The divisor the next call to `add` will use: the number of samples
    /// tracked after that call, capped at the window size.
    pub open spec fn next_weight(self) -> int {
        if self.counter < self.max_counter {
            self.counter + 1
        } else {
            self.max_counter as int
        }
    }

    /// The filter state after feeding one more sample.
    pub open spec fn spec_add(self, x: i64) -> MovingAverage {
        MovingAverage {
            max_counter: self.max_counter,
            counter: if self.counter < self.max_counter {
                (self.counter + 1) as usize
            } else {
                self.counter
            },
            average: avg_step(self.average as int, x as int, self.next_weight()) as i64,
        }
    }

    pub fn new(max_counter: usize) -> (r: MovingAverage)
        requires
            1 <= max_counter <= VALUE_BOUND,
        ensures
            r == (MovingAverage { max_counter, counter: 0, average: 0 }),
            r.wf(),
    {
        MovingAverage { max_counter, counter: 0, average: 0 }
    }

    /// Fold one sample into the average.
    pub fn add(&mut self, x: i64)
        requires
            old(self).wf(),
            in_range(x as int),
        ensures
            *final(self) == old(self).spec_add(x),
            final(self).wf(),
    {
        let n: usize;
        if self.counter == self.max_counter {
            n = self.max_counter;
        } else {
            self.counter = self.counter + 1;
            n = self.counter;
        }
        let d: i64 = x - self.average;
        proof {
            lemma_div_trunc_bounds(d as int, n as int);
        }
        let q: i64 = crate::arith::div_trunc64(d, n as i64);
        self.average = self.average + q;
    }
}

/// The state of a fresh filter of window `w` after the samples of `xs` have
/// been fed to `add` in order.
pub open spec fn filter_after(w: usize, xs: Seq<i64>) -> MovingAverage
    decreases xs.len(),
{
    if xs.len() == 0 {
        MovingAverage { max_counter: w, counter: 0, average: 0 }
    } else {
        filter_after(w, xs.drop_last()).spec_add(xs.last())
    }
}

/// Law: after `k` samples the filter tracks `min(k, w)` of them, so the
/// divisor used by the `k`-th call to `add` equals `k` while `k <= w` and
/// stays `w` for every later call.
pub proof fn lemma_effective_weight(w: usize, xs: Seq<i64>)
    requires
        w >= 1,
    ensures
        filter_after(w, xs).count() == if xs.len() <= w { xs.len() as int } else { w as int },
        xs.len() >= 1 ==> filter_after(w, xs.drop_last()).next_weight() == (
        if xs.len() <= w {
            xs.len() as int
        } else {
            w as int
        }),
    decreases xs.len(),
{
    if xs.len() == 0 {
        assert(filter_after(w, xs).counter == 0);
    } else {
        lemma_effective_weight(w, xs.drop_last());
        let prev: MovingAverage = filter_after(w, xs.drop_last());
        assert(filter_after(w, xs) == prev.spec_add(xs.last()));
        assert(prev.max_counter == w) by {
            lemma_filter_after_window(w, xs.drop_last());
        }
    }
}

/// The window of a filter built by `filter_after` is the one it started with.
pub proof fn lemma_filter_after_window(w: usize, xs: Seq<i64>)
    ensures
        filter_after(w, xs).max_counter == w,
    decreases xs.len(),
{
    if xs.len() > 0 {
        lemma_filter_after_window(w, xs.drop_last());
    }
}

/// Law: one recurrence step with divisor 1 lands exactly on `x`.
pub proof fn lemma_window_one(avg: int, x: int)
    ensures
        avg_step(avg, x, 1) == x,
{
    let d: int = x - avg;
    if d >= 0 {
        assert(d / 1 == d);
    } else {
        assert((-d) / 1 == -d);
    }
}

/// Law: with window size 1 the filter reduces to "the average equals the
/// last added value", whatever was added before.
pub proof fn lemma_window_one_filter(xs: Seq<i64>)
    requires
        xs.len() >= 1,
    ensures
        filter_after(1, xs).average == xs.last(),
{
    let prev: MovingAverage = filter_after(1, xs.drop_last());
    lemma_filter_after_window(1, xs.drop_last());
    assert(prev.next_weight() == 1);
    lemma_window_one(prev.average as int, xs.last() as int);
}

} // verus!
