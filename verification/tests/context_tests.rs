use plugin_agent::response::{DeliveryOutcome, TransportResponse};
use plugin_agent::{Component, Context};

fn context_with_metric() -> Context {
    let mut ctx = Context::new("key".to_owned(), "1.0".to_owned(), "host".to_owned(), 42);
    let mut c = Component::new("Test".to_owned(), "g1".to_owned());
    c.add_metric("m".to_owned());
    ctx.register_component(c);
    ctx
}

fn metric_count(ctx: &Context, guid: &str, name: &str) -> u64 {
    for c in ctx.components().iter() {
        if c.guid() == guid {
            return c.get_metric(name.to_owned()).unwrap().count();
        }
    }
    panic!("component not found");
}

fn metric_value(ctx: &Context, guid: &str, name: &str) -> i64 {
    for c in ctx.components().iter() {
        if c.guid() == guid {
            return c.get_metric(name.to_owned()).unwrap().value();
        }
    }
    panic!("component not found");
}

#[test]
fn report_routes_by_guid() {
    let mut ctx = context_with_metric();
    let p1 = ctx.report_metric("g1".to_owned(), "m".to_owned(), 10, None);
    let p2 = ctx.report_metric("g1".to_owned(), "m".to_owned(), 20, None);
    assert_eq!(p1, 0);
    assert_eq!(p2, 10);
    assert_eq!(metric_value(&ctx, "g1", "m"), 30);
    assert_eq!(metric_count(&ctx, "g1", "m"), 2);
}

#[test]
fn report_to_unknown_guid_is_a_silent_noop() {
    let mut ctx = context_with_metric();
    let r = ctx.report_metric("none".to_owned(), "m".to_owned(), 10, None);
    assert_eq!(r, 0);
    assert_eq!(metric_count(&ctx, "g1", "m"), 0);
}

#[test]
fn duplicate_guids_are_permitted_and_the_first_takes_the_report() {
    let mut ctx = Context::new("key".to_owned(), "1.0".to_owned(), "host".to_owned(), 42);
    let mut first = Component::new("A".to_owned(), "g1".to_owned());
    first.add_metric("m".to_owned());
    let mut second = Component::new("B".to_owned(), "g1".to_owned());
    second.add_metric("m".to_owned());
    ctx.register_component(first);
    ctx.register_component(second);
    ctx.report_metric("g1".to_owned(), "m".to_owned(), 10, None);
    assert_eq!(ctx.components()[0].get_metric("m".to_owned()).unwrap().count(), 1);
    assert_eq!(ctx.components()[1].get_metric("m".to_owned()).unwrap().count(), 0);
}

#[test]
fn successful_delivery_resets_metrics_and_advances_last_reported() {
    let mut ctx = context_with_metric();
    ctx.report_metric("g1".to_owned(), "m".to_owned(), 10, None);
    ctx.report_metric("g1".to_owned(), "m".to_owned(), 20, None);
    assert_eq!(metric_value(&ctx, "g1", "m"), 30);
    assert_eq!(metric_count(&ctx, "g1", "m"), 2);

    let response = TransportResponse::Completed {
        status: 200,
        body: "{\"status\": \"ok\"}".to_owned(),
    };
    let out = ctx.deliver_at(7_000, &response);
    assert!(matches!(out, DeliveryOutcome::Success));
    assert_eq!(metric_value(&ctx, "g1", "m"), 0);
    assert_eq!(metric_count(&ctx, "g1", "m"), 0);
    assert_eq!(ctx.last_reported(), Some(7_000));
}

#[test]
fn declared_failure_advances_last_reported_but_keeps_metrics() {
    let mut ctx = context_with_metric();
    ctx.report_metric("g1".to_owned(), "m".to_owned(), 10, None);

    let response = TransportResponse::Completed {
        status: 200,
        body: "{\"status\": \"error\", \"error\": \"boom\"}".to_owned(),
    };
    let out = ctx.deliver_at(7_000, &response);
    match out {
        DeliveryOutcome::Failure { detail } => assert_eq!(detail, "FAILED 200, boom"),
        _ => panic!("expected a failure"),
    }
    assert_eq!(metric_value(&ctx, "g1", "m"), 10);
    assert_eq!(ctx.last_reported(), Some(7_000));
}

#[test]
fn unavailable_endpoint_is_absorbed_without_reset() {
    let mut ctx = context_with_metric();
    ctx.report_metric("g1".to_owned(), "m".to_owned(), 10, None);

    let response = TransportResponse::Completed { status: 503, body: String::new() };
    let out = ctx.deliver_at(7_000, &response);
    assert!(matches!(out, DeliveryOutcome::TransientUnavailable));
    assert_eq!(metric_value(&ctx, "g1", "m"), 10);
    assert_eq!(metric_count(&ctx, "g1", "m"), 1);
    assert_eq!(ctx.last_reported(), Some(7_000));
}

#[test]
fn forbidden_response_is_fatal_and_unlike_a_failure() {
    let mut ctx = context_with_metric();
    ctx.report_metric("g1".to_owned(), "m".to_owned(), 10, None);

    let response = TransportResponse::Completed {
        status: 403,
        body: "denied".to_owned(),
    };
    let out = ctx.deliver_at(7_000, &response);
    match out {
        DeliveryOutcome::Fatal { detail } => assert_eq!(detail, "denied"),
        _ => panic!("expected the fatal variant"),
    }
    assert!(!matches!(
        ctx.deliver_at(7_001, &TransportResponse::Completed { status: 500, body: String::new() }),
        DeliveryOutcome::Fatal { .. }
    ));
    assert_eq!(metric_value(&ctx, "g1", "m"), 10);
}

#[test]
fn transport_error_is_a_failure_with_its_own_detail() {
    let mut ctx = context_with_metric();
    let response = TransportResponse::TransportError { detail: "connection refused".to_owned() };
    let out = ctx.deliver_at(7_000, &response);
    match out {
        DeliveryOutcome::Failure { detail } => assert_eq!(detail, "connection refused"),
        _ => panic!("expected a failure"),
    }
    assert_eq!(ctx.last_reported(), Some(7_000));
}

#[test]
fn identity_getters_report_construction_values() {
    let ctx = Context::new("key".to_owned(), "1.0".to_owned(), "host".to_owned(), 42);
    assert_eq!(ctx.license_key(), "key");
    assert_eq!(ctx.version(), "1.0");
    assert_eq!(ctx.host(), "host");
    assert_eq!(ctx.pid(), 42);
    assert_eq!(ctx.last_reported(), None);
}
