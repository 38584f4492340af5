//! Rolling means over a bounded window of recent values.

use crate::api::error::ApiError;
use std::collections::VecDeque;
use vstd::prelude::*;

verus! {

/// How a mean is computed from the retained values.
///
/// Only the simple, unweighted mean has a computation. The other two are
/// recognised so that a configuration naming them can be refused by name.
#[derive(Debug, Clone, Copy, PartialEq, Eq, Structural)]
pub enum MeanCalculationMethod {
    SimpleMA,
    EMA,
    VMAP,
}

/// The sum of the values of `s`.
pub open spec fn seq_sum(s: Seq<u64>) -> int
    decreases s.len(),
{
    if s.len() == 0 {
        0
    } else {
        seq_sum(s.drop_last()) + s.last() as int
    }
}

/// The arithmetic mean of `s`, rounded down; 0 for the empty sequence.
pub open spec fn mean_of(s: Seq<u64>) -> int {
    if s.len() == 0 {
        0
    } else {
        seq_sum(s) / (s.len() as int)
    }
}

/// The window after `value` is appended to `window` under a limit of `period`
/// values: the oldest value leaves when the limit is exceeded.
pub open spec fn window_push(window: Seq<u64>, value: u64, period: nat) -> Seq<u64> {
    let grown = window.push(value);
    if grown.len() > period {
        grown.skip(1)
    } else {
        grown
    }
}

/// The window that holds after every value of `pushed` went, in order, into
/// the window `start` under a limit of `period` values.
pub open spec fn window_after(start: Seq<u64>, pushed: Seq<u64>, period: nat) -> Seq<u64>
    decreases pushed.len(),
{
    if pushed.len() == 0 {
        start
    } else {
        window_push(window_after(start, pushed.drop_last(), period), pushed.last(), period)
    }
}

/// The window that holds after every value of `pushed` went, in order, into an
/// empty window of limit `period`.
pub open spec fn window_of(pushed: Seq<u64>, period: nat) -> Seq<u64> {
    window_after(Seq::empty(), pushed, period)
}

/// The last `count` values of `s`.
pub open spec fn last_values(s: Seq<u64>, count: nat) -> Seq<u64>
    recommends
        count <= s.len(),
{
    s.subrange(s.len() - count, s.len() as int)
}

/// The number of values that a window of limit `period` retains of `count`
/// pushed values.
pub open spec fn retained_count(period: nat, count: nat) -> nat {
    if period <= count {
        period
    } else {
        count
    }
}

/// Appending a value adds it to the sum.
pub proof fn lemma_sum_push(s: Seq<u64>, value: u64)
    ensures
        seq_sum(s.push(value)) == seq_sum(s) + value,
{
    assert(s.push(value).drop_last() =~= s);
}

/// Dropping the first value takes it off the sum.
pub proof fn lemma_sum_skip_first(s: Seq<u64>)
    requires
        s.len() > 0,
    ensures
        seq_sum(s.skip(1)) == seq_sum(s) - s[0],
    decreases s.len(),
{
    if s.len() == 1 {
        assert(s.skip(1) =~= Seq::<u64>::empty());
        assert(s.drop_last() =~= Seq::<u64>::empty());
    } else {
        lemma_sum_skip_first(s.drop_last());
        assert(s.skip(1).drop_last() =~= s.drop_last().skip(1));
    }
}

/// The sum of `s` lies between 0 and the largest value times its length.
pub proof fn lemma_sum_bounds(s: Seq<u64>)
    ensures
        0 <= seq_sum(s) <= s.len() * u64::MAX,
    decreases s.len(),
{
    if s.len() > 0 {
        lemma_sum_bounds(s.drop_last());
        assert(s.len() * u64::MAX == s.drop_last().len() * u64::MAX + u64::MAX)
            by (nonlinear_arith)
            requires
                s.drop_last().len() == s.len() - 1,
        ;
    }
}

/// The mean of `s` is a value that fits where its values fit.
pub proof fn lemma_mean_bounds(s: Seq<u64>)
    ensures
        0 <= mean_of(s) <= u64::MAX,
{
    lemma_sum_bounds(s);
    if s.len() > 0 {
        let total = seq_sum(s);
        let count = s.len() as int;
        assert(0 <= total / count <= u64::MAX) by (nonlinear_arith)
            requires
                count > 0,
                0 <= total <= count * u64::MAX,
        ;
    }
}

/// The mean of a sequence whose values all equal `value` is `value`.
pub proof fn lemma_mean_of_constant(s: Seq<u64>, value: u64)
    requires
        s.len() > 0,
        forall|i: int| 0 <= i < s.len() ==> s[i] == value,
    ensures
        seq_sum(s) == s.len() * value,
        mean_of(s) == value,
    decreases s.len(),
{
    let count = s.len() as int;
    if s.len() == 1 {
        assert(s.drop_last() =~= Seq::<u64>::empty());
        assert(seq_sum(s.drop_last()) == 0);
    } else {
        lemma_mean_of_constant(s.drop_last(), value);
    }
    assert(seq_sum(s) == count * value) by (nonlinear_arith)
        requires
            seq_sum(s) == (count - 1) * value + value,
    ;
    assert((count * value) / count == value) by (nonlinear_arith)
        requires
            count > 0,
    ;
}

/// One more value pushed is one more step of the window.
pub proof fn lemma_window_after_push(start: Seq<u64>, pushed: Seq<u64>, value: u64, period: nat)
    ensures
        window_after(start, pushed.push(value), period) == window_push(
            window_after(start, pushed, period),
            value,
            period,
        ),
{
    assert(pushed.push(value).drop_last() =~= pushed);
}

/// Whatever was pushed, a window of limit `period` holds the most recent
/// values, as many as the limit allows and were pushed.
pub proof fn lemma_window_is_most_recent(pushed: Seq<u64>, period: nat)
    ensures
        window_of(pushed, period) == last_values(
            pushed,
            retained_count(period, pushed.len()),
        ),
    decreases pushed.len(),
{
    if pushed.len() == 0 {
        assert(window_of(pushed, period) =~= last_values(pushed, 0));
    } else {
        let before = pushed.drop_last();
        lemma_window_is_most_recent(before, period);
        assert(window_of(pushed, period) =~= last_values(
            pushed,
            retained_count(period, pushed.len()),
        ));
    }
}

/// A rolling mean that is fed one value at a time.
pub trait MeanCalculation {
    /// The invariant of the implementation.
    spec fn valid(&self) -> bool;

    /// The mean of what is retained now.
    spec fn current_mean(&self) -> int;

    /// Takes `value` in and returns the mean that holds afterwards.
    fn update(&mut self, value: u64) -> (mean: u64)
        requires
            old(self).valid(),
        ensures
            final(self).valid(),
            mean == final(self).current_mean(),
    ;

    /// The current mean; nothing changes.
    fn calculate(&self) -> (mean: u64)
        requires
            self.valid(),
        ensures
            mean == self.current_mean(),
    ;
}

/// A moving average over the most recent `period` values.
pub struct MaTracker {
    method: MeanCalculationMethod,
    period: usize,
    values: VecDeque<u64>,
    sum: u128,
}

impl MaTracker {
    /// The retained values, oldest first.
    pub closed spec fn window(&self) -> Seq<u64> {
        self.values@
    }

    /// The limit on the number of retained values.
    pub closed spec fn spec_period(&self) -> nat {
        self.period as nat
    }

    /// The method the tracker computes by.
    pub closed spec fn spec_method(&self) -> MeanCalculationMethod {
        self.method
    }

    /// The running sum, as stored.
    pub closed spec fn running_sum(&self) -> int {
        self.sum as int
    }

    /// The window respects the limit, the running sum is the sum of the
    /// window, and the method is one that has a computation.
    pub open spec fn wf(&self) -> bool {
        &&& self.window().len() <= self.spec_period()
        &&& self.running_sum() == seq_sum(self.window())
        &&& self.spec_method() == MeanCalculationMethod::SimpleMA
    }

    /// Whether `method` has a computation.
    pub open spec fn supported(method: MeanCalculationMethod) -> bool {
        method == MeanCalculationMethod::SimpleMA
    }

    /// An empty tracker of limit `period`. A method without a computation is
    /// refused here, before any value is taken in.
    pub fn new(period: usize, ma_calculation_method: MeanCalculationMethod) -> (r: Result<
        Self,
        ApiError,
    >)
        ensures
            Self::supported(ma_calculation_method) ==> r is Ok,
            !Self::supported(ma_calculation_method) ==> r is Err && r->Err_0 is ValidationError
                && r->Err_0->ValidationError_0@ == "unsupported calculation method"@,
            r is Ok ==> {
                &&& r->Ok_0.wf()
                &&& r->Ok_0.window() == Seq::<u64>::empty()
                &&& r->Ok_0.spec_period() == period
            },
    {
        match ma_calculation_method {
            MeanCalculationMethod::SimpleMA => Ok(
                Self { method: ma_calculation_method, period, sum: 0, values: VecDeque::new() },
            ),
            _ => Err(ApiError::ValidationError("unsupported calculation method".to_string())),
        }
    }

    /// The limit on the number of retained values.
    pub fn period(&self) -> (r: usize)
        ensures
            r == self.spec_period(),
    {
        self.period
    }

    /// The number of values retained now.
    pub fn len(&self) -> (r: usize)
        ensures
            r == self.window().len(),
    {
        self.values.len()
    }
}

impl MeanCalculation for MaTracker {
    open spec fn valid(&self) -> bool {
        self.wf()
    }

    open spec fn current_mean(&self) -> int {
        mean_of(self.window())
    }

    /// Appends `value`; when the window then exceeds the limit, the oldest
    /// value leaves. Returns the mean of the window as it is afterwards.
    fn update(&mut self, value: u64) -> (mean: u64)
        ensures
            final(self).window() == window_push(
                old(self).window(),
                value,
                old(self).spec_period(),
            ),
            final(self).spec_period() == old(self).spec_period(),
    {
        proof {
            lemma_sum_bounds(self.values@);
            lemma_sum_push(self.values@, value);
            lemma_sum_skip_first(self.values@.push(value));
            assert(self.values@.len() * u64::MAX + u64::MAX <= u128::MAX) by (nonlinear_arith)
                requires
                    self.values@.len() <= usize::MAX,
            ;
        }
        self.sum = self.sum + value as u128;
        self.values.push_back(value);
        if self.values.len() > self.period {
            match self.values.pop_front() {
                Some(outdated) => {
                    proof {
                        lemma_sum_bounds(self.values@);
                    }
                    self.sum = self.sum - outdated as u128;
                },
                None => {},
            }
        }
        self.calculate()
    }

    /// The mean of the retained values, rounded down; 0 while none is
    /// retained.
    fn calculate(&self) -> (mean: u64)
    {
        if self.values.len() == 0 {
            return 0;
        }
        proof {
            lemma_mean_bounds(self.values@);
        }
        (self.sum / (self.values.len() as u128)) as u64
    }
}

/// After any values went into a fresh tracker one by one, its mean is the
/// arithmetic mean of the most recent of them: as many as the limit allows
/// and were pushed.
pub proof fn lemma_mean_of_most_recent(tracker: MaTracker, pushed: Seq<u64>)
    requires
        tracker.wf(),
        tracker.window() == window_of(pushed, tracker.spec_period()),
    ensures
        tracker.current_mean() == mean_of(
            last_values(pushed, retained_count(tracker.spec_period(), pushed.len())),
        ),
{
    lemma_window_is_most_recent(pushed, tracker.spec_period());
}

} // verus!
