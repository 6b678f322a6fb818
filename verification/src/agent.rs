//! The cycle driver's verified core: the agent's context and configuration,
//! the caller's opaque state slot, and the decision of when a delivery is
//! due. The embedding program runs the actual poll loop, performs the
//! network exchange, and hands its result back to [`Agent::deliver_at`].

use vstd::prelude::*;

use crate::clock::ts_in_range;
use crate::component::{incoming_metric, metric_index, Component, ComponentView};
use crate::config::{Config, ConfigView};
use crate::context::{
    can_report_context, context_reported_value, delivered_context, payload_json,
    reported_context, Context, ContextView,
};
use crate::metric::{init_metric, MetricView};
use crate::response::{classify, outcome_model, DeliveryOutcome, TransportResponse};

verus! {

/// The elapsed time the agent measures against its delivery interval: the
/// seconds since the last delivery attempt, or an unbounded sentinel when
/// none was ever made (so the first eligible cycle delivers).
pub open spec fn context_duration_value(ctx: ContextView, now: int) -> int {
    match ctx.last_reported {
        None => i64::MAX as int,
        Some(t) => now - t,
    }
}

/// The agent: the verified state behind the poll loop. It owns the context
/// and configuration, and threads an opaque caller-chosen state value across
/// cycles without ever inspecting it.
pub struct Agent<T> {
    context: Context,
    config: Config,
    state: Option<T>,
}

impl<T> Agent<T> {
    /// The agent's context, mathematically.
    pub closed spec fn ctx(&self) -> ContextView {
        self.context@
    }

    /// The agent's configuration, mathematically.
    pub closed spec fn cfg(&self) -> ConfigView {
        self.config@
    }

    /// The caller's opaque state slot.
    pub closed spec fn state_view(&self) -> Option<T> {
        self.state
    }

    /// Well-formedness: the owned context is well-formed.
    pub open spec fn wf(&self) -> bool {
        self.ctx().wf()
    }

    /// A fresh agent with the given identity and the default configuration.
    pub fn new(license_key: String, version: String, host: String, pid: u64) -> (a: Agent<T>)
        ensures
            a.ctx() == (ContextView {
                components: Seq::<ComponentView>::empty(),
                license_key: license_key@,
                version: version@,
                host: host@,
                pid: pid as int,
                last_reported: None,
            }),
            a.cfg().deliver_cycle == crate::config::DEFAULT_DELIVER_CYCLE as int,
            a.cfg().poll_cycle == crate::config::DEFAULT_POLL_CYCLE as int,
            a.state_view() is None,
            a.wf(),
    {
        Agent {
            context: Context::new(license_key, version, host, pid),
            config: Config::new(),
            state: None,
        }
    }

    /// A fresh agent with the given identity and an explicit configuration.
    pub fn with_config(
        license_key: String,
        version: String,
        host: String,
        pid: u64,
        config: Config,
    ) -> (a: Agent<T>)
        ensures
            a.ctx() == (ContextView {
                components: Seq::<ComponentView>::empty(),
                license_key: license_key@,
                version: version@,
                host: host@,
                pid: pid as int,
                last_reported: None,
            }),
            a.cfg() == config@,
            a.state_view() is None,
            a.wf(),
    {
        Agent { context: Context::new(license_key, version, host, pid), config, state: None }
    }

    /// Stores the caller's state value; nothing else changes.
    pub fn set_state(&mut self, state: T)
        ensures
            final(self).state_view() == Some(state),
            final(self).ctx() == old(self).ctx(),
            final(self).cfg() == old(self).cfg(),
    {
        self.state = Some(state);
    }

    /// The caller's state value, untouched by the agent.
    pub fn get_state(&self) -> (r: &Option<T>)
        ensures
            *r == self.state_view(),
    {
        &self.state
    }

    /// The license key presented to the endpoint.
    pub fn license_key(&self) -> (r: &String)
        ensures
            r@ == self.ctx().license_key,
    {
        self.context.license_key()
    }

    /// The agent's configuration.
    pub fn config(&self) -> (r: &Config)
        ensures
            r@ == self.cfg(),
    {
        &self.config
    }

    /// A fresh component for the caller to populate and register.
    pub fn create_component(&self, name: String, guid: String) -> (c: Component)
        ensures
            c@ == (ComponentView {
                name: name@,
                guid: guid@,
                metrics: Seq::<MetricView>::empty(),
                last_delivered_at: None,
            }),
            c@.wf(),
    {
        Component::new(name, guid)
    }

    /// Registers a metric name with a component, as
    /// [`Component::add_metric`] states.
    pub fn create_metric(&self, component: &mut Component, name: String)
        ensures
            metric_index(old(component)@.metrics, name@) >= 0 ==> final(component)@ == old(
                component,
            )@,
            metric_index(old(component)@.metrics, name@) < 0 ==> final(component)@
                == (ComponentView {
                metrics: old(component)@.metrics.push(init_metric(name@)),
                ..old(component)@
            }),
            old(component)@.wf() ==> final(component)@.wf(),
    {
        component.add_metric(name);
    }

    /// Registers a component with the agent's context.
    pub fn register_component(&mut self, component: Component)
        ensures
            final(self).ctx() == (ContextView {
                components: old(self).ctx().components.push(component@),
                ..old(self).ctx()
            }),
            final(self).cfg() == old(self).cfg(),
            final(self).state_view() == old(self).state_view(),
            old(self).wf() && component@.wf() ==> final(self).wf(),
    {
        self.context.register_component(component);
    }

    /// Reports one sample against `(component_guid, metric_name)`, as
    /// [`Context::report_metric`] states.
    pub fn report_metric(
        &mut self,
        component_guid: String,
        metric_name: String,
        value: i64,
        options: Option<(u64, i64, i64, i64)>,
    ) -> (old_value: i64)
        requires
            options is None ==> value * value <= i64::MAX as int,
            can_report_context(
                old(self).ctx(),
                component_guid@,
                metric_name@,
                incoming_metric(metric_name@, value as int, options),
            ),
        ensures
            final(self).ctx() == reported_context(
                old(self).ctx(),
                component_guid@,
                metric_name@,
                incoming_metric(metric_name@, value as int, options),
            ),
            old_value as int == context_reported_value(
                old(self).ctx(),
                component_guid@,
                metric_name@,
            ),
            final(self).cfg() == old(self).cfg(),
            final(self).state_view() == old(self).state_view(),
            old(self).wf() ==> final(self).wf(),
    {
        self.context.report_metric(component_guid, metric_name, value, options)
    }

    /// Seconds since the last delivery attempt at wall-clock `now`, with the
    /// unbounded sentinel when none was ever made.
    pub fn context_duration(&self, now: i64) -> (r: i64)
        requires
            self.wf(),
            ts_in_range(now as int),
        ensures
            r as int == context_duration_value(self.ctx(), now as int),
    {
        match self.context.last_reported() {
            None => i64::MAX,
            Some(t) => now - t,
        }
    }

    /// Whether enough time has elapsed at wall-clock `now` for a delivery:
    /// the elapsed time has reached the configured delivery interval.
    pub fn should_deliver(&self, now: i64) -> (r: bool)
        requires
            self.wf(),
            ts_in_range(now as int),
        ensures
            r == (context_duration_value(self.ctx(), now as int) >= self.cfg().deliver_cycle),
    {
        self.context_duration(now) >= self.config.deliver_cycle()
    }

    /// The outbound payload at wall-clock `now`, with durations measured
    /// against the configured delivery interval.
    pub fn build_payload(&self, now: i64) -> (out: String)
        requires
            self.wf(),
            ts_in_range(now as int),
        ensures
            out@ == payload_json(self.ctx(), now as int, self.cfg().deliver_cycle),
    {
        self.context.build_payload(now, self.config.deliver_cycle())
    }

    /// Applies the outcome of a delivery attempt made at wall-clock `now`,
    /// as [`Context::deliver_at`] states.
    pub fn deliver_at(&mut self, now: i64, response: &TransportResponse) -> (out: DeliveryOutcome)
        requires
            old(self).wf(),
            ts_in_range(now as int),
        ensures
            outcome_model(out) == classify(*response),
            final(self).ctx() == delivered_context(old(self).ctx(), now as int, classify(*response)),
            final(self).cfg() == old(self).cfg(),
            final(self).state_view() == old(self).state_view(),
            final(self).wf(),
    {
        self.context.deliver_at(now, response)
    }
}

} // verus!
