//! A named, GUID-identified metric source: owns a set of metrics and tracks
//! the time elapsed since its last successful delivery.

use vstd::prelude::*;

use crate::clock::{ts_in_range, ts_opt_in_range};
use crate::metric::{
    aggregated, batch_sample, can_aggregate, init_metric, reset_metric, single_sample, Metric,
    MetricView,
};

verus! {

/// A logical metric source, identified by `name` and `guid` together, owning
/// its metrics and remembering when it was last successfully delivered.
pub struct Component {
    name: String,
    guid: String,
    metrics: Vec<Metric>,
    last_delivered_at: Option<i64>,
}

/// The mathematical content of a [`Component`].
pub struct ComponentView {
    pub name: Seq<char>,
    pub guid: Seq<char>,
    pub metrics: Seq<MetricView>,
    pub last_delivered_at: Option<int>,
}

impl View for Component {
    type V = ComponentView;

    closed spec fn view(&self) -> ComponentView {
        ComponentView {
            name: self.name@,
            guid: self.guid@,
            metrics: self.metrics@.map_values(|m: Metric| m@),
            last_delivered_at: match self.last_delivered_at {
                Some(t) => Some(t as int),
                None => None,
            },
        }
    }
}

/// Metric names are pairwise distinct.
pub open spec fn metric_names_unique(ms: Seq<MetricView>) -> bool {
    forall|i: int, j: int| 0 <= i < j < ms.len() ==> ms[i].name != ms[j].name
}

/// The index of the first metric named `name` at or after position `i`, or
/// `-1` when there is none.
pub open spec fn metric_index_from(ms: Seq<MetricView>, name: Seq<char>, i: int) -> int
    decreases ms.len() - i,
{
    if i < 0 || i >= ms.len() {
        -1
    } else if ms[i].name == name {
        i
    } else {
        metric_index_from(ms, name, i + 1)
    }
}

/// The index of the first metric named `name`, or `-1` when there is none.
pub open spec fn metric_index(ms: Seq<MetricView>, name: Seq<char>) -> int {
    metric_index_from(ms, name, 0)
}

/// What `metric_index_from` finds: a position in range carrying `name` and
/// preceded (from `i` on) by no other occurrence, or `-1` and no occurrence
/// from `i` on at all.
pub proof fn lemma_metric_index_from_properties(ms: Seq<MetricView>, name: Seq<char>, i: int)
    requires
        0 <= i <= ms.len(),
    ensures
        -1 <= metric_index_from(ms, name, i) < ms.len(),
        metric_index_from(ms, name, i) >= 0 ==> {
            &&& i <= metric_index_from(ms, name, i)
            &&& ms[metric_index_from(ms, name, i)].name == name
            &&& forall|j: int| i <= j < metric_index_from(ms, name, i) ==> ms[j].name != name
        },
        metric_index_from(ms, name, i) == -1 ==> forall|j: int|
            i <= j < ms.len() ==> ms[j].name != name,
    decreases ms.len() - i,
{
    if i < ms.len() && ms[i].name != name {
        lemma_metric_index_from_properties(ms, name, i + 1);
    }
}

/// What `metric_index` finds, over the whole sequence.
pub proof fn lemma_metric_index_properties(ms: Seq<MetricView>, name: Seq<char>)
    ensures
        -1 <= metric_index(ms, name) < ms.len(),
        metric_index(ms, name) >= 0 ==> {
            &&& ms[metric_index(ms, name)].name == name
            &&& forall|j: int| 0 <= j < metric_index(ms, name) ==> ms[j].name != name
        },
        metric_index(ms, name) == -1 ==> forall|j: int|
            0 <= j < ms.len() ==> ms[j].name != name,
{
    lemma_metric_index_from_properties(ms, name, 0);
}

/// The component after a successful delivery at time `t`: every metric reset
/// in place, and the delivery timestamp recorded.
pub open spec fn delivered_component(c: ComponentView, t: int) -> ComponentView {
    ComponentView {
        name: c.name,
        guid: c.guid,
        metrics: c.metrics.map_values(|m: MetricView| reset_metric(m)),
        last_delivered_at: Some(t),
    }
}

/// The transient metric that one call of `report_metric` builds from its
/// arguments.
pub open spec fn incoming_metric(
    name: Seq<char>,
    value: int,
    options: Option<(u64, i64, i64, i64)>,
) -> MetricView {
    match options {
        None => single_sample(name, value),
        Some(o) => batch_sample(name, value, o.0 as int, o.1 as int, o.2 as int, o.3 as int),
    }
}

/// The component after one report of `inc` against metric `name`: the first
/// metric of that name has `inc` folded in; a missing name leaves the
/// component unchanged.
pub open spec fn reported_component(
    c: ComponentView,
    name: Seq<char>,
    inc: MetricView,
) -> ComponentView {
    let k = metric_index(c.metrics, name);
    if k < 0 {
        c
    } else {
        ComponentView { metrics: c.metrics.update(k, aggregated(c.metrics[k], inc)), ..c }
    }
}

/// The value a report against metric `name` returns: the pre-overwrite
/// `prev` of the metric it found, or zero when the name is absent.
pub open spec fn reported_value(c: ComponentView, name: Seq<char>) -> int {
    let k = metric_index(c.metrics, name);
    if k < 0 {
        0
    } else {
        c.metrics[k].prev
    }
}

/// Whether one report against metric `name` stays within the machine integer
/// ranges (trivially true when the name is absent).
pub open spec fn can_report(c: ComponentView, name: Seq<char>, inc: MetricView) -> bool {
    let k = metric_index(c.metrics, name);
    k >= 0 ==> can_aggregate(c.metrics[k], inc)
}

impl ComponentView {
    /// Well-formedness: metric names are unique, and the delivery timestamp,
    /// when present, is a plausible wall-clock reading.
    pub open spec fn wf(self) -> bool {
        &&& metric_names_unique(self.metrics)
        &&& ts_opt_in_range(self.last_delivered_at)
    }
}

/// A mutable borrow of one vector element, with the vector pinned to the
/// borrow's final value.
fn vec_index_mut<T>(v: &mut Vec<T>, i: usize) -> (element: &mut T)
    requires
        i < old(v).len(),
    ensures
        *element == old(v)@[i as int],
        final(v)@ == old(v)@.update(i as int, *final(element)),
{
    &mut v[i]
}

impl Component {
    /// A fresh component with no metrics and no delivery recorded yet.
    pub fn new(name: String, guid: String) -> (c: Component)
        ensures
            c@ == (ComponentView {
                name: name@,
                guid: guid@,
                metrics: Seq::<MetricView>::empty(),
                last_delivered_at: None,
            }),
            c@.wf(),
    {
        let c = Component { name, guid, metrics: Vec::new(), last_delivered_at: None };
        proof {
            assert(c@.metrics =~= Seq::<MetricView>::empty());
        }
        c
    }

    /// The component's display name.
    pub fn name(&self) -> (r: &String)
        ensures
            r@ == self@.name,
    {
        &self.name
    }

    /// The component's GUID; lookup inside a context goes by this value.
    pub fn guid(&self) -> (r: &String)
        ensures
            r@ == self@.guid,
    {
        &self.guid
    }

    /// Whether the component carries the GUID `guid`.
    pub fn has_guid(&self, guid: &String) -> (r: bool)
        ensures
            r == (self@.guid == guid@),
    {
        self.guid == *guid
    }

    /// The component's identity string: its name concatenated with its GUID.
    pub fn key(&self) -> (r: String)
        ensures
            r@ == self@.name + self@.guid,
    {
        let mut r = self.name.clone();
        r.append(self.guid.as_str());
        r
    }

    /// Registers a metric name; a name already present is left as it is, so
    /// metric names stay unique within the component.
    #[verifier::loop_isolation(false)]
    pub fn add_metric(&mut self, name: String)
        ensures
            metric_index(old(self)@.metrics, name@) >= 0 ==> final(self)@ == old(self)@,
            metric_index(old(self)@.metrics, name@) < 0 ==> final(self)@ == (ComponentView {
                metrics: old(self)@.metrics.push(init_metric(name@)),
                ..old(self)@
            }),
            old(self)@.wf() ==> final(self)@.wf(),
    {
        proof {
            lemma_metric_index_properties(self@.metrics, name@);
        }
        let ghost pre = self@;
        let n = self.metrics.len();
        let mut i: usize = 0;
        while i < n
            invariant
                i <= n,
                n == self.metrics.len(),
                *self == *old(self),
                forall|j: int| 0 <= j < i ==> self@.metrics[j].name != name@,
                metric_index(self@.metrics, name@) == metric_index_from(
                    self@.metrics,
                    name@,
                    i as int,
                ),
            decreases n - i,
        {
            if self.metrics[i].has_name(&name) {
                return ;
            }
            i += 1;
        }
        let m = Metric::new(name);
        self.metrics.push(m);
        proof {
            assert(self@.metrics =~= pre.metrics.push(init_metric(name@)));
            assert(final(self)@ == (ComponentView {
                metrics: pre.metrics.push(init_metric(name@)),
                ..pre
            }));
            if pre.wf() {
                assert forall|x: int, y: int|
                    0 <= x < y < self@.metrics.len() implies self@.metrics[x].name
                    != self@.metrics[y].name by {
                    if y == pre.metrics.len() as int {
                        assert(self@.metrics[y].name == name@);
                    }
                }
            }
        }
    }

    /// Reports one sample (or pre-aggregated batch) against the metric named
    /// `metric_name`: the first metric of that name has the incoming values
    /// folded in and its pre-overwrite `prev` is returned; an unknown name is
    /// silently dropped and zero returned.
    #[verifier::loop_isolation(false)]
    pub fn report_metric(
        &mut self,
        metric_name: String,
        value: i64,
        options: Option<(u64, i64, i64, i64)>,
    ) -> (old_value: i64)
        requires
            options is None ==> value * value <= i64::MAX as int,
            can_report(old(self)@, metric_name@, incoming_metric(metric_name@, value as int, options)),
        ensures
            final(self)@ == reported_component(
                old(self)@,
                metric_name@,
                incoming_metric(metric_name@, value as int, options),
            ),
            old_value as int == reported_value(old(self)@, metric_name@),
            old(self)@.wf() ==> final(self)@.wf(),
    {
        proof {
            lemma_metric_index_properties(self@.metrics, metric_name@);
        }
        let ghost pre = self@;
        let ghost inc = incoming_metric(metric_name@, value as int, options);
        let n = self.metrics.len();
        let mut i: usize = 0;
        while i < n
            invariant
                i <= n,
                n == self.metrics.len(),
                *self == *old(self),
                forall|j: int| 0 <= j < i ==> self@.metrics[j].name != metric_name@,
                metric_index(self@.metrics, metric_name@) == metric_index_from(
                    self@.metrics,
                    metric_name@,
                    i as int,
                ),
            decreases n - i,
        {
            if self.metrics[i].has_name(&metric_name) {
                let ghost k = metric_index(pre.metrics, metric_name@);
                let m = Metric::new_valued(metric_name, value, options);
                proof {
                    assert(m@ == inc);
                    assert(k == i as int);
                }
                let target = vec_index_mut(&mut self.metrics, i);
                let old_value = target.aggregate(&m);
                proof {
                    assert(self@.metrics =~= pre.metrics.update(k, aggregated(pre.metrics[k], inc)));
                    assert(final(self)@ == reported_component(pre, metric_name@, inc));
                    if pre.wf() {
                        assert(forall|x: int|
                            0 <= x < self@.metrics.len() ==> self@.metrics[x].name
                                == pre.metrics[x].name);
                    }
                }
                return old_value;
            }
            i += 1;
        }
        0
    }

    /// The first metric named `metric_name`, if the component owns one.
    #[verifier::loop_isolation(false)]
    pub fn get_metric(&self, metric_name: String) -> (r: Option<&Metric>)
        ensures
            metric_index(self@.metrics, metric_name@) < 0 ==> r is None,
            metric_index(self@.metrics, metric_name@) >= 0 ==> {
                &&& r is Some
                &&& r.unwrap()@ == self@.metrics[metric_index(self@.metrics, metric_name@)]
            },
    {
        proof {
            lemma_metric_index_properties(self@.metrics, metric_name@);
        }
        let n = self.metrics.len();
        let mut i: usize = 0;
        while i < n
            invariant
                i <= n,
                n == self.metrics.len(),
                forall|j: int| 0 <= j < i ==> self@.metrics[j].name != metric_name@,
                metric_index(self@.metrics, metric_name@) == metric_index_from(
                    self@.metrics,
                    metric_name@,
                    i as int,
                ),
            decreases n - i,
        {
            if self.metrics[i].has_name(&metric_name) {
                return Some(&self.metrics[i]);
            }
            i += 1;
        }
        None
    }

    /// The metrics the component owns, in registration order.
    pub fn metrics(&self) -> (r: &Vec<Metric>)
        ensures
            r@.map_values(|m: Metric| m@) == self@.metrics,
    {
        &self.metrics
    }

    /// Seconds of delivery-relevant elapsed time at wall-clock `now`: the
    /// configured delivery interval when nothing was ever delivered (so a
    /// fresh component is immediately eligible), else the seconds elapsed
    /// since the last delivery.
    pub fn duration_at(&self, now: i64, deliver_cycle: i64) -> (r: i64)
        requires
            ts_in_range(now as int),
            self@.wf(),
        ensures
            self@.last_delivered_at is None ==> r == deliver_cycle,
            self@.last_delivered_at matches Some(t) ==> r as int == now - t,
    {
        match self.last_delivered_at {
            None => deliver_cycle,
            Some(t) => now - t,
        }
    }

    /// [`Component::duration_at`] read against the wall clock.
    pub fn duration(&self, deliver_cycle: i64) -> (r: i64)
        requires
            self@.wf(),
        ensures
            self@.last_delivered_at is None ==> r == deliver_cycle,
            self@.last_delivered_at matches Some(t) ==> exists|now: int|
                ts_in_range(now) && r as int == now - t,
    {
        let now = crate::clock::now_timestamp();
        self.duration_at(now, deliver_cycle)
    }

    /// Records a successful delivery at time `now`: every owned metric is
    /// reset in place and the delivery timestamp updated.
    #[verifier::loop_isolation(false)]
    pub fn mark_delivered_at(&mut self, now: i64)
        requires
            ts_in_range(now as int),
        ensures
            final(self)@ == delivered_component(old(self)@, now as int),
            old(self)@.wf() ==> final(self)@.wf(),
    {
        let ghost pre = self@;
        self.last_delivered_at = Some(now);
        let n = self.metrics.len();
        let mut i: usize = 0;
        while i < n
            invariant
                i <= n,
                n == self.metrics.len(),
                self@.name == pre.name,
                self@.guid == pre.guid,
                self@.last_delivered_at == Some(now as int),
                self@.metrics.len() == pre.metrics.len(),
                forall|j: int| 0 <= j < i ==> self.metrics@[j]@ == reset_metric(pre.metrics[j]),
                forall|j: int| i <= j < n ==> self.metrics@[j]@ == pre.metrics[j],
            decreases n - i,
        {
            let ghost ms0 = self.metrics@;
            let target = vec_index_mut(&mut self.metrics, i);
            target.reset();
            proof {
                assert(self.metrics@ =~= ms0.update(i as int, self.metrics@[i as int]));
                assert(self.metrics@[i as int]@ == reset_metric(pre.metrics[i as int]));
            }
            i += 1;
        }
        proof {
            assert(self@.metrics =~= pre.metrics.map_values(|m: MetricView| reset_metric(m)));
            if pre.wf() {
                assert(forall|x: int|
                    0 <= x < self@.metrics.len() ==> self@.metrics[x].name == pre.metrics[x].name);
            }
        }
    }

    /// [`Component::mark_delivered_at`] read against the wall clock.
    pub fn last_delivered_now(&mut self)
        ensures
            exists|now: int|
                ts_in_range(now) && final(self)@ == delivered_component(old(self)@, now),
            old(self)@.wf() ==> final(self)@.wf(),
    {
        let now = crate::clock::now_timestamp();
        self.mark_delivered_at(now);
    }
}

} // verus!
