//! A named statistical accumulator: running value, sample count, minimum,
//! maximum, sum of squares, and the one-cycle-delayed previous-value marker.

use vstd::prelude::*;

verus! {

/// A single named statistical accumulator. Samples reported between delivery
/// windows are folded in by [`Metric::aggregate`]; a successful delivery
/// clears the statistics (but not `prev`) through [`Metric::reset`].
pub struct Metric {
    name: String,
    value: i64,
    prev: i64,
    count: u64,
    min: i64,
    max: i64,
    sum_of_squares: i64,
}

/// The mathematical content of a [`Metric`].
pub struct MetricView {
    pub name: Seq<char>,
    pub value: int,
    pub prev: int,
    pub count: int,
    pub min: int,
    pub max: int,
    pub sum_of_squares: int,
}

impl View for Metric {
    type V = MetricView;

    closed spec fn view(&self) -> MetricView {
        MetricView {
            name: self.name@,
            value: self.value as int,
            prev: self.prev as int,
            count: self.count as int,
            min: self.min as int,
            max: self.max as int,
            sum_of_squares: self.sum_of_squares as int,
        }
    }
}

/// The state of a freshly created metric: everything zeroed.
pub open spec fn init_metric(name: Seq<char>) -> MetricView {
    MetricView { name, value: 0, prev: 0, count: 0, min: 0, max: 0, sum_of_squares: 0 }
}

/// A transient metric standing for one raw sample of value `v`:
/// `count = 1`, `min = max = v`, `sum_of_squares = v * v`.
pub open spec fn single_sample(name: Seq<char>, v: int) -> MetricView {
    MetricView { name, value: v, prev: 0, count: 1, min: v, max: v, sum_of_squares: v * v }
}

/// A transient metric standing for a pre-aggregated batch.
pub open spec fn batch_sample(
    name: Seq<char>,
    v: int,
    count: int,
    min: int,
    max: int,
    sum_of_squares: int,
) -> MetricView {
    MetricView { name, value: v, prev: 0, count, min, max, sum_of_squares }
}

/// One aggregation step: the state of `cur` after the incoming sample `inc`
/// is folded in. The minimum becomes the incoming value when nothing had been
/// counted yet, else the smaller of the two minima; the maximum is computed
/// against the just-updated minimum, not the prior maximum — a deliberate
/// quirk, kept as documented; `prev` records the incoming value.
pub open spec fn aggregated(cur: MetricView, inc: MetricView) -> MetricView {
    let new_min = if cur.count == 0 {
        inc.value
    } else if inc.min < cur.min {
        inc.min
    } else {
        cur.min
    };
    MetricView {
        name: cur.name,
        value: cur.value + inc.value,
        prev: inc.value,
        count: cur.count + inc.count,
        min: new_min,
        max: if inc.max > new_min { inc.max } else { new_min },
        sum_of_squares: cur.sum_of_squares + inc.sum_of_squares,
    }
}

/// The state of a metric after a reset: statistics zeroed, `prev` kept.
pub open spec fn reset_metric(m: MetricView) -> MetricView {
    MetricView { name: m.name, value: 0, prev: m.prev, count: 0, min: 0, max: 0, sum_of_squares: 0 }
}

/// Whether folding `inc` into `cur` stays within the machine integer ranges.
pub open spec fn can_aggregate(cur: MetricView, inc: MetricView) -> bool {
    &&& i64::MIN as int <= cur.value + inc.value <= i64::MAX as int
    &&& cur.count + inc.count <= u64::MAX as int
    &&& i64::MIN as int <= cur.sum_of_squares + inc.sum_of_squares <= i64::MAX as int
}

/// The sum of a sequence of sample values.
pub open spec fn sum_of(vs: Seq<int>) -> int
    decreases vs.len(),
{
    if vs.len() == 0 {
        0
    } else {
        sum_of(vs.drop_last()) + vs.last()
    }
}

/// The sum of the squares of a sequence of sample values.
pub open spec fn sum_of_squares_of(vs: Seq<int>) -> int
    decreases vs.len(),
{
    if vs.len() == 0 {
        0
    } else {
        sum_of_squares_of(vs.drop_last()) + vs.last() * vs.last()
    }
}

/// The least element of a non-empty sequence of sample values.
pub open spec fn min_of(vs: Seq<int>) -> int
    recommends
        vs.len() > 0,
    decreases vs.len(),
{
    if vs.len() <= 1 {
        vs[0]
    } else if vs.last() < min_of(vs.drop_last()) {
        vs.last()
    } else {
        min_of(vs.drop_last())
    }
}

/// The state of a fresh metric after the raw samples `vs` are folded in one
/// by one, each as a single sample.
pub open spec fn folded_singles(name: Seq<char>, vs: Seq<int>) -> MetricView
    decreases vs.len(),
{
    if vs.len() == 0 {
        init_metric(name)
    } else {
        aggregated(folded_singles(name, vs.drop_last()), single_sample(name, vs.last()))
    }
}

/// After any number of single-sample reports to a fresh metric, the count is
/// the number of samples, the value is their sum, the minimum is their least
/// element, and the sum of squares is the sum of their squares. The maximum,
/// computed against the just-updated minimum rather than the prior maximum,
/// collapses to the last sample reported; `prev` holds the last sample too.
pub proof fn lemma_single_sample_statistics(name: Seq<char>, vs: Seq<int>)
    ensures
        folded_singles(name, vs).name == name,
        folded_singles(name, vs).count == vs.len(),
        folded_singles(name, vs).value == sum_of(vs),
        folded_singles(name, vs).sum_of_squares == sum_of_squares_of(vs),
        vs.len() > 0 ==> folded_singles(name, vs).min == min_of(vs),
        vs.len() > 0 ==> folded_singles(name, vs).max == vs.last(),
        vs.len() > 0 ==> folded_singles(name, vs).prev == vs.last(),
    decreases vs.len(),
{
    if vs.len() > 0 {
        lemma_single_sample_statistics(name, vs.drop_last());
        lemma_min_of_is_lower_bound(vs);
    }
}

/// The least element of a non-empty sequence is a lower bound of it.
pub proof fn lemma_min_of_is_lower_bound(vs: Seq<int>)
    requires
        vs.len() > 0,
    ensures
        forall|i: int| 0 <= i < vs.len() ==> min_of(vs) <= vs[i],
    decreases vs.len(),
{
    if vs.len() > 1 {
        lemma_min_of_is_lower_bound(vs.drop_last());
        assert(forall|i: int| 0 <= i < vs.len() - 1 ==> vs.drop_last()[i] == vs[i]);
    }
}

/// Resetting a metric and then folding any incoming sample yields exactly the
/// state that folding the same sample into a freshly constructed metric of
/// the same name yields: the reset clears everything the fold can see except
/// `prev`, and the fold overwrites `prev` with the incoming value either way.
/// Only the value the fold returns (the pre-overwrite `prev`, see
/// [`Metric::aggregate`]) carries over from before the reset.
pub proof fn lemma_reset_then_aggregate(m: MetricView, inc: MetricView)
    ensures
        aggregated(reset_metric(m), inc) == aggregated(init_metric(m.name), inc),
        reset_metric(m).prev == m.prev,
{
}

/// After any aggregation step the minimum is no greater than the maximum,
/// whatever the incoming sample holds.
pub proof fn lemma_aggregate_min_le_max(cur: MetricView, inc: MetricView)
    ensures
        aggregated(cur, inc).min <= aggregated(cur, inc).max,
{
}

impl Metric {
    /// A fresh metric named `name`, with zeroed statistics.
    pub fn new(name: String) -> (m: Metric)
        ensures
            m@ == init_metric(name@),
    {
        Metric { name, value: 0, prev: 0, count: 0, min: 0, max: 0, sum_of_squares: 0 }
    }

    /// A transient metric carrying one incoming report: a single raw sample
    /// of `value` when `options` is absent, else the pre-aggregated batch
    /// `(count, min, max, sum_of_squares)` that `options` gives.
    pub fn new_valued(name: String, value: i64, options: Option<(u64, i64, i64, i64)>) -> (m: Metric)
        requires
            options is None ==> value * value <= i64::MAX as int,
        ensures
            options is None ==> m@ == single_sample(name@, value as int),
            options matches Some(o) ==> m@ == batch_sample(
                name@,
                value as int,
                o.0 as int,
                o.1 as int,
                o.2 as int,
                o.3 as int,
            ),
    {
        match options {
            Some(o) => Metric {
                name,
                value,
                prev: 0,
                count: o.0,
                min: o.1,
                max: o.2,
                sum_of_squares: o.3,
            },
            None => {
                proof {
                    assert((value as int) * (value as int) >= 0) by (nonlinear_arith);
                }
                Metric {
                    name,
                    value,
                    prev: 0,
                    count: 1,
                    min: value,
                    max: value,
                    sum_of_squares: value * value,
                }
            },
        }
    }

    /// The metric's name.
    pub fn name(&self) -> (r: &String)
        ensures
            r@ == self@.name,
    {
        &self.name
    }

    /// Whether the metric is named `name`.
    pub fn has_name(&self, name: &String) -> (r: bool)
        ensures
            r == (self@.name == name@),
    {
        self.name == *name
    }

    /// Running sum of the reported sample values since the last reset.
    pub fn value(&self) -> (r: i64)
        ensures
            r as int == self@.value,
    {
        self.value
    }

    /// The value carried by the previous `aggregate` call.
    pub fn prev(&self) -> (r: i64)
        ensures
            r as int == self@.prev,
    {
        self.prev
    }

    /// The number of raw samples folded in since the last reset.
    pub fn count(&self) -> (r: u64)
        ensures
            r as int == self@.count,
    {
        self.count
    }

    /// The smallest sample bound folded in since the last reset.
    pub fn min(&self) -> (r: i64)
        ensures
            r as int == self@.min,
    {
        self.min
    }

    /// The current maximum marker (see [`aggregated`] for its quirk).
    pub fn max(&self) -> (r: i64)
        ensures
            r as int == self@.max,
    {
        self.max
    }

    /// The accumulated sum of squares of the reported samples.
    pub fn sum_of_squares(&self) -> (r: i64)
        ensures
            r as int == self@.sum_of_squares,
    {
        self.sum_of_squares
    }

    /// Folds one incoming sample (or pre-aggregated batch) into this
    /// accumulator, exactly as [`aggregated`] states, and returns the value
    /// `prev` held before this call; `prev` is left holding the incoming
    /// value.
    pub fn aggregate(&mut self, metric: &Metric) -> (prev: i64)
        requires
            can_aggregate(old(self)@, metric@),
        ensures
            final(self)@ == aggregated(old(self)@, metric@),
            prev as int == old(self)@.prev,
    {
        let prev = self.prev;
        self.prev = metric.value;
        self.value = self.value + metric.value;
        if self.count == 0 {
            self.min = metric.value;
        } else if metric.min < self.min {
            self.min = metric.min;
        }
        self.count = self.count + metric.count;
        if metric.max > self.min {
            self.max = metric.max;
        } else {
            self.max = self.min;
        }
        self.sum_of_squares = self.sum_of_squares + metric.sum_of_squares;
        prev
    }

    /// The metric rendered for the payload: its name, and the fixed tuple
    /// `[value, count, min, max, sum_of_squares]`.
    pub fn to_hash(&self) -> (r: (String, Vec<i64>))
        requires
            self@.count <= i64::MAX as int,
        ensures
            r.0@ == self@.name,
            r.1@.len() == 5,
            r.1@[0] as int == self@.value,
            r.1@[1] as int == self@.count,
            r.1@[2] as int == self@.min,
            r.1@[3] as int == self@.max,
            r.1@[4] as int == self@.sum_of_squares,
    {
        let mut values: Vec<i64> = Vec::new();
        values.push(self.value);
        values.push(self.count as i64);
        values.push(self.min);
        values.push(self.max);
        values.push(self.sum_of_squares);
        (self.name.clone(), values)
    }

    /// Zeroes every statistic; `prev` is deliberately preserved, so the last
    /// reported value is carried across delivery boundaries.
    pub fn reset(&mut self)
        ensures
            final(self)@ == reset_metric(old(self)@),
    {
        self.value = 0;
        self.count = 0;
        self.min = 0;
        self.max = 0;
        self.sum_of_squares = 0;
    }
}

} // verus!
