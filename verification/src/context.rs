//! The agent's identity and its registered components: builds the outbound
//! payload and applies the outcome of a delivery attempt.

use vstd::prelude::*;

use crate::clock::{ts_in_range, ts_opt_in_range};
use crate::component::{
    can_report, delivered_component, incoming_metric, reported_component, reported_value,
    Component, ComponentView,
};
use crate::metric::MetricView;
use crate::numbers::dec_int;
use crate::payload::{component_json, quoted};
use crate::response::{classify, evaluate_response, outcome_model, DeliveryOutcome, OutcomeModel, TransportResponse};

verus! {

/// The agent's identity (license key, version, host, process id) and the
/// components registered with it. A component, once registered, stays
/// registered for the process lifetime.
pub struct Context {
    components: Vec<Component>,
    license_key: String,
    version: String,
    host: String,
    pid: u64,
    last_reported: Option<i64>,
}

/// The mathematical content of a [`Context`].
pub struct ContextView {
    pub components: Seq<ComponentView>,
    pub license_key: Seq<char>,
    pub version: Seq<char>,
    pub host: Seq<char>,
    pub pid: int,
    pub last_reported: Option<int>,
}

impl View for Context {
    type V = ContextView;

    closed spec fn view(&self) -> ContextView {
        ContextView {
            components: self.components@.map_values(|c: Component| c@),
            license_key: self.license_key@,
            version: self.version@,
            host: self.host@,
            pid: self.pid as int,
            last_reported: match self.last_reported {
                Some(t) => Some(t as int),
                None => None,
            },
        }
    }
}

impl ContextView {
    /// Well-formedness: every registered component is well-formed, and the
    /// last-attempt timestamp, when present, is a plausible clock reading.
    pub open spec fn wf(self) -> bool {
        &&& forall|i: int| 0 <= i < self.components.len() ==> self.components[i].wf()
        &&& ts_opt_in_range(self.last_reported)
    }
}

/// The index of the first component carrying `guid` at or after position
/// `i`, or `-1` when there is none. Duplicate guids are permitted; a report
/// reaches only the first.
pub open spec fn component_index_from(cs: Seq<ComponentView>, guid: Seq<char>, i: int) -> int
    decreases cs.len() - i,
{
    if i < 0 || i >= cs.len() {
        -1
    } else if cs[i].guid == guid {
        i
    } else {
        component_index_from(cs, guid, i + 1)
    }
}

/// The index of the first component carrying `guid`, or `-1`.
pub open spec fn component_index(cs: Seq<ComponentView>, guid: Seq<char>) -> int {
    component_index_from(cs, guid, 0)
}

/// What `component_index_from` finds, like its metric counterpart.
pub proof fn lemma_component_index_from_properties(cs: Seq<ComponentView>, guid: Seq<char>, i: int)
    requires
        0 <= i <= cs.len(),
    ensures
        -1 <= component_index_from(cs, guid, i) < cs.len(),
        component_index_from(cs, guid, i) >= 0 ==> {
            &&& i <= component_index_from(cs, guid, i)
            &&& cs[component_index_from(cs, guid, i)].guid == guid
            &&& forall|j: int| i <= j < component_index_from(cs, guid, i) ==> cs[j].guid != guid
        },
        component_index_from(cs, guid, i) == -1 ==> forall|j: int|
            i <= j < cs.len() ==> cs[j].guid != guid,
    decreases cs.len() - i,
{
    if i < cs.len() && cs[i].guid != guid {
        lemma_component_index_from_properties(cs, guid, i + 1);
    }
}

/// What `component_index` finds, over the whole sequence.
pub proof fn lemma_component_index_properties(cs: Seq<ComponentView>, guid: Seq<char>)
    ensures
        -1 <= component_index(cs, guid) < cs.len(),
        component_index(cs, guid) >= 0 ==> {
            &&& cs[component_index(cs, guid)].guid == guid
            &&& forall|j: int| 0 <= j < component_index(cs, guid) ==> cs[j].guid != guid
        },
        component_index(cs, guid) == -1 ==> forall|j: int|
            0 <= j < cs.len() ==> cs[j].guid != guid,
{
    lemma_component_index_from_properties(cs, guid, 0);
}

/// The context after one report against `(guid, name)`: the first component
/// with that guid takes the report; a missing guid leaves everything
/// unchanged.
pub open spec fn reported_context(
    ctx: ContextView,
    guid: Seq<char>,
    name: Seq<char>,
    inc: MetricView,
) -> ContextView {
    let k = component_index(ctx.components, guid);
    if k < 0 {
        ctx
    } else {
        ContextView {
            components: ctx.components.update(k, reported_component(ctx.components[k], name, inc)),
            ..ctx
        }
    }
}

/// The value one report against `(guid, name)` returns: the pre-overwrite
/// `prev` of the metric it reached, or zero when guid or name is absent.
pub open spec fn context_reported_value(ctx: ContextView, guid: Seq<char>, name: Seq<char>) -> int {
    let k = component_index(ctx.components, guid);
    if k < 0 {
        0
    } else {
        reported_value(ctx.components[k], name)
    }
}

/// Whether one report against `(guid, name)` stays within the machine
/// integer ranges (trivially true when it reaches no metric).
pub open spec fn can_report_context(
    ctx: ContextView,
    guid: Seq<char>,
    name: Seq<char>,
    inc: MetricView,
) -> bool {
    let k = component_index(ctx.components, guid);
    k >= 0 ==> can_report(ctx.components[k], name, inc)
}

/// Every component marked delivered at time `t`.
pub open spec fn delivered_components(cs: Seq<ComponentView>, t: int) -> Seq<ComponentView> {
    cs.map_values(|c: ComponentView| delivered_component(c, t))
}

/// The context after a delivery attempt at time `t` classified as
/// `outcome`: only a confirmed success resets the components, but the
/// attempt timestamp advances regardless of the outcome.
pub open spec fn delivered_context(ctx: ContextView, t: int, outcome: OutcomeModel) -> ContextView {
    ContextView {
        components: if outcome is Success {
            delivered_components(ctx.components, t)
        } else {
            ctx.components
        },
        last_reported: Some(t),
        ..ctx
    }
}

/// The first `k` component entries of the payload, comma-separated.
pub open spec fn component_entries(cs: Seq<ComponentView>, now: int, deliver_cycle: int, k: int) -> Seq<char>
    decreases k,
{
    if k <= 0 {
        Seq::empty()
    } else if k == 1 {
        component_json(cs[0], now, deliver_cycle)
    } else {
        component_entries(cs, now, deliver_cycle, k - 1) + ","@ + component_json(
            cs[k - 1],
            now,
            deliver_cycle,
        )
    }
}

/// The outbound wire payload: the agent's identity and, per component, its
/// name, guid, duration at `now`, and metrics.
pub open spec fn payload_json(ctx: ContextView, now: int, deliver_cycle: int) -> Seq<char> {
    "{\"agent\":{\"host\":"@ + quoted(ctx.host) + ",\"pid\":"@ + dec_int(ctx.pid) + ",\"version\":"@
        + quoted(ctx.version) + "},\"components\":["@ + component_entries(
        ctx.components,
        now,
        deliver_cycle,
        ctx.components.len() as int,
    ) + "]}"@
}

/// A mutable borrow of one vector element, with the vector pinned to the
/// borrow's final value.
fn vec_index_mut<T>(v: &mut Vec<T>, i: usize) -> (element: &mut T)
    requires
        i < old(v).len(),
    ensures
        *element == old(v)@[i as int],
        final(v)@ == old(v)@.update(i as int, *final(element)),
{
    &mut v[i]
}

impl Context {
    /// A fresh context carrying the agent's identity, with no components
    /// registered and no delivery attempted yet.
    pub fn new(license_key: String, version: String, host: String, pid: u64) -> (c: Context)
        ensures
            c@ == (ContextView {
                components: Seq::<ComponentView>::empty(),
                license_key: license_key@,
                version: version@,
                host: host@,
                pid: pid as int,
                last_reported: None,
            }),
            c@.wf(),
    {
        let c = Context {
            components: Vec::new(),
            license_key,
            version,
            host,
            pid,
            last_reported: None,
        };
        proof {
            assert(c@.components =~= Seq::<ComponentView>::empty());
        }
        c
    }

    /// The license key presented to the endpoint.
    pub fn license_key(&self) -> (r: &String)
        ensures
            r@ == self@.license_key,
    {
        &self.license_key
    }

    /// The agent's version string.
    pub fn version(&self) -> (r: &String)
        ensures
            r@ == self@.version,
    {
        &self.version
    }

    /// The host identifier reported in the payload.
    pub fn host(&self) -> (r: &String)
        ensures
            r@ == self@.host,
    {
        &self.host
    }

    /// The process id reported in the payload.
    pub fn pid(&self) -> (r: u64)
        ensures
            r as int == self@.pid,
    {
        self.pid
    }

    /// When the most recent delivery attempt was made, whatever its outcome.
    pub fn last_reported(&self) -> (r: Option<i64>)
        ensures
            r is None <==> self@.last_reported is None,
            r matches Some(t) ==> self@.last_reported == Some(t as int),
    {
        self.last_reported
    }

    /// The registered components, in registration order.
    pub fn components(&self) -> (r: &Vec<Component>)
        ensures
            r@.map_values(|c: Component| c@) == self@.components,
    {
        &self.components
    }

    /// Registers a component. No duplicate-guid check is made: duplicates
    /// are permitted, and each is delivered independently.
    pub fn register_component(&mut self, component: Component)
        ensures
            final(self)@ == (ContextView {
                components: old(self)@.components.push(component@),
                ..old(self)@
            }),
            old(self)@.wf() && component@.wf() ==> final(self)@.wf(),
    {
        let ghost pre = self@;
        let ghost cv = component@;
        self.components.push(component);
        proof {
            assert(self@.components =~= pre.components.push(cv));
        }
    }

    /// Reports one sample (or pre-aggregated batch) against the metric named
    /// `metric_name` of the first component carrying `component_guid`; an
    /// unknown guid is silently dropped and zero returned.
    #[verifier::loop_isolation(false)]
    pub fn report_metric(
        &mut self,
        component_guid: String,
        metric_name: String,
        value: i64,
        options: Option<(u64, i64, i64, i64)>,
    ) -> (old_value: i64)
        requires
            options is None ==> value * value <= i64::MAX as int,
            can_report_context(
                old(self)@,
                component_guid@,
                metric_name@,
                incoming_metric(metric_name@, value as int, options),
            ),
        ensures
            final(self)@ == reported_context(
                old(self)@,
                component_guid@,
                metric_name@,
                incoming_metric(metric_name@, value as int, options),
            ),
            old_value as int == context_reported_value(old(self)@, component_guid@, metric_name@),
            old(self)@.wf() ==> final(self)@.wf(),
    {
        proof {
            lemma_component_index_properties(self@.components, component_guid@);
        }
        let ghost pre = self@;
        let ghost inc = incoming_metric(metric_name@, value as int, options);
        let n = self.components.len();
        let mut i: usize = 0;
        while i < n
            invariant
                i <= n,
                n == self.components.len(),
                *self == *old(self),
                forall|j: int| 0 <= j < i ==> self@.components[j].guid != component_guid@,
                component_index(self@.components, component_guid@) == component_index_from(
                    self@.components,
                    component_guid@,
                    i as int,
                ),
            decreases n - i,
        {
            if self.components[i].has_guid(&component_guid) {
                let ghost k = component_index(pre.components, component_guid@);
                proof {
                    assert(k == i as int);
                }
                let target = vec_index_mut(&mut self.components, i);
                let old_value = target.report_metric(metric_name, value, options);
                proof {
                    assert(self@.components =~= pre.components.update(
                        k,
                        reported_component(pre.components[k], metric_name@, inc),
                    ));
                    assert(final(self)@ == reported_context(pre, component_guid@, metric_name@, inc));
                    if pre.wf() {
                        assert forall|x: int|
                            0 <= x < self@.components.len() implies self@.components[x].wf() by {
                            assert(pre.components[x].wf());
                        }
                    }
                }
                return old_value;
            }
            i += 1;
        }
        0
    }

    /// Builds the outbound payload at wall-clock `now`, with component
    /// durations measured against the configured delivery interval.
    #[verifier::loop_isolation(false)]
    pub fn build_payload(&self, now: i64, deliver_cycle: i64) -> (out: String)
        requires
            self@.wf(),
            ts_in_range(now as int),
        ensures
            out@ == payload_json(self@, now as int, deliver_cycle as int),
    {
        let mut out = "{\"agent\":{\"host\":".to_owned();
        out.append(crate::payload::quoted_string(self.host.as_str()).as_str());
        out.append(",\"pid\":");
        out.append(crate::numbers::u64_to_dec(self.pid).as_str());
        out.append(",\"version\":");
        out.append(crate::payload::quoted_string(self.version.as_str()).as_str());
        out.append("},\"components\":[");
        let ghost head = out@;
        proof {
            assert(dec_int(self@.pid) == crate::numbers::dec_digits(self.pid as nat));
        }
        let n = self.components.len();
        let mut j: usize = 0;
        while j < n
            invariant
                j <= n,
                n == self.components.len(),
                out@ == head + component_entries(
                    self@.components,
                    now as int,
                    deliver_cycle as int,
                    j as int,
                ),
            decreases n - j,
        {
            if j > 0 {
                out.append(",");
            }
            proof {
                assert(self@.components[j as int] == self.components@[j as int]@);
                assert(self@.components[j as int].wf());
            }
            let entry = crate::payload::component_json_string(&self.components[j], now, deliver_cycle);
            out.append(entry.as_str());
            proof {
                assert(out@ =~= head + component_entries(
                    self@.components,
                    now as int,
                    deliver_cycle as int,
                    j as int + 1,
                ));
            }
            j += 1;
        }
        out.append("]}");
        proof {
            assert(out@ =~= payload_json(self@, now as int, deliver_cycle as int));
        }
        out
    }

    /// Applies the outcome of a delivery attempt made at wall-clock `now`:
    /// classifies what the transport reported; a confirmed success marks
    /// every component delivered (resetting its metrics in place), any other
    /// outcome leaves the components untouched; the attempt timestamp
    /// advances regardless.
    #[verifier::loop_isolation(false)]
    pub fn deliver_at(&mut self, now: i64, response: &TransportResponse) -> (out: DeliveryOutcome)
        requires
            old(self)@.wf(),
            ts_in_range(now as int),
        ensures
            outcome_model(out) == classify(*response),
            final(self)@ == delivered_context(old(self)@, now as int, classify(*response)),
            final(self)@.wf(),
    {
        let ghost pre = self@;
        let out = evaluate_response(response);
        let is_success = match &out {
            DeliveryOutcome::Success => true,
            _ => false,
        };
        if is_success {
            let n = self.components.len();
            let mut i: usize = 0;
            while i < n
                invariant
                    i <= n,
                    n == self.components.len(),
                    self@.components.len() == pre.components.len(),
                    self@.license_key == pre.license_key,
                    self@.version == pre.version,
                    self@.host == pre.host,
                    self@.pid == pre.pid,
                    self@.last_reported == pre.last_reported,
                    forall|j: int|
                        0 <= j < i ==> self.components@[j]@ == delivered_component(
                            pre.components[j],
                            now as int,
                        ),
                    forall|j: int| i <= j < n ==> self.components@[j]@ == pre.components[j],
                decreases n - i,
            {
                let ghost cs0 = self.components@;
                let target = vec_index_mut(&mut self.components, i);
                target.mark_delivered_at(now);
                proof {
                    assert(self.components@ =~= cs0.update(i as int, self.components@[i as int]));
                    assert(self.components@[i as int]@ == delivered_component(
                        pre.components[i as int],
                        now as int,
                    ));
                }
                i += 1;
            }
            proof {
                assert(self@.components =~= delivered_components(pre.components, now as int));
            }
        }
        self.last_reported = Some(now);
        proof {
            assert(final(self)@ == delivered_context(pre, now as int, classify(*response)));
            assert forall|x: int|
                0 <= x < self@.components.len() implies self@.components[x].wf() by {
                assert(pre.components[x].wf());
            }
        }
        out
    }

    /// [`Context::deliver_at`] read against the wall clock: applies the
    /// outcome of a delivery attempt made now.
    pub fn deliver(&mut self, response: &TransportResponse) -> (out: DeliveryOutcome)
        requires
            old(self)@.wf(),
        ensures
            outcome_model(out) == classify(*response),
            exists|t: int|
                ts_in_range(t) && final(self)@ == delivered_context(
                    old(self)@,
                    t,
                    classify(*response),
                ),
            final(self)@.wf(),
    {
        let now = crate::clock::now_timestamp();
        let out = self.deliver_at(now, response);
        proof {
            assert(ts_in_range(now as int) && final(self)@ == delivered_context(
                old(self)@,
                now as int,
                classify(*response),
            ));
        }
        out
    }
}

} // verus!
