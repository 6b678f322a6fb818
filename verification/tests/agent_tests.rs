use plugin_agent::agent::Agent;
use plugin_agent::response::{DeliveryOutcome, TransportResponse};
use plugin_agent::Config;

struct CycleState {
    previous_size: i64,
}

#[test]
fn state_is_threaded_but_never_inspected() {
    let mut agent: Agent<CycleState> =
        Agent::new("key".to_owned(), "1.0".to_owned(), "host".to_owned(), 42);
    assert!(agent.get_state().is_none());
    agent.set_state(CycleState { previous_size: 7 });
    assert_eq!(agent.get_state().as_ref().unwrap().previous_size, 7);
    agent.set_state(CycleState { previous_size: 9 });
    assert_eq!(agent.get_state().as_ref().unwrap().previous_size, 9);
}

#[test]
fn fresh_agent_is_immediately_due_for_delivery() {
    let agent: Agent<()> = Agent::new("key".to_owned(), "1.0".to_owned(), "host".to_owned(), 42);
    assert_eq!(agent.context_duration(5_000), i64::MAX);
    assert!(agent.should_deliver(5_000));
}

#[test]
fn delivery_interval_gates_the_next_attempt() {
    let config = Config::from_values(
        "http://localhost/metrics".to_owned(),
        "log4rs.yml".to_owned(),
        60,
        20,
    );
    let mut agent: Agent<()> = Agent::with_config(
        "key".to_owned(),
        "1.0".to_owned(),
        "host".to_owned(),
        42,
        config,
    );
    // A transient response still counts as an attempt.
    let out = agent.deliver_at(
        1_000,
        &TransportResponse::Completed { status: 503, body: String::new() },
    );
    assert!(matches!(out, DeliveryOutcome::TransientUnavailable));
    assert_eq!(agent.context_duration(1_030), 30);
    assert!(!agent.should_deliver(1_030));
    assert!(agent.should_deliver(1_060));
}

#[test]
fn agent_reports_flow_into_the_payload() {
    let mut agent: Agent<()> =
        Agent::new("key".to_owned(), "1.0".to_owned(), "host".to_owned(), 42);
    let mut c = agent.create_component("Test".to_owned(), "g1".to_owned());
    agent.create_metric(&mut c, "m".to_owned());
    agent.register_component(c);
    let p1 = agent.report_metric("g1".to_owned(), "m".to_owned(), 10, None);
    let p2 = agent.report_metric("g1".to_owned(), "m".to_owned(), 20, None);
    assert_eq!(p1, 0);
    assert_eq!(p2, 10);
    let payload = agent.build_payload(5_000);
    assert!(payload.contains("\"m\":[30,2,10,20,500]"));
}

#[test]
fn successful_delivery_through_the_agent_resets_the_payload() {
    let mut agent: Agent<()> =
        Agent::new("key".to_owned(), "1.0".to_owned(), "host".to_owned(), 42);
    let mut c = agent.create_component("Test".to_owned(), "g1".to_owned());
    agent.create_metric(&mut c, "m".to_owned());
    agent.register_component(c);
    agent.report_metric("g1".to_owned(), "m".to_owned(), 10, None);
    let out = agent.deliver_at(
        5_000,
        &TransportResponse::Completed { status: 200, body: "{\"status\": \"ok\"}".to_owned() },
    );
    assert!(matches!(out, DeliveryOutcome::Success));
    let payload = agent.build_payload(5_030);
    assert!(payload.contains("\"m\":[0,0,0,0,0]"));
    assert!(payload.contains("\"duration\":30"));
}

#[test]
fn fatal_outcome_surfaces_through_the_agent() {
    let mut agent: Agent<()> =
        Agent::new("key".to_owned(), "1.0".to_owned(), "host".to_owned(), 42);
    let out = agent.deliver_at(
        5_000,
        &TransportResponse::Completed { status: 403, body: "denied".to_owned() },
    );
    assert!(matches!(out, DeliveryOutcome::Fatal { .. }));
}

#[test]
fn default_configuration_matches_the_documented_values() {
    let config = Config::new();
    assert_eq!(config.deliver_cycle(), 60);
    assert_eq!(config.poll_cycle(), 20);
    assert_eq!(
        config.get_endpoint(),
        "https://platform-api.newrelic.com/platform/v1/metrics"
    );
    assert_eq!(config.log4rs_file(), "log4rs.yml");
}

#[test]
fn explicit_configuration_is_kept() {
    let config = Config::from_values(
        "http://localhost/metrics".to_owned(),
        "logging.yml".to_owned(),
        30,
        10,
    );
    assert_eq!(config.deliver_cycle(), 30);
    assert_eq!(config.poll_cycle(), 10);
    assert_eq!(config.get_endpoint(), "http://localhost/metrics");
    assert_eq!(config.log4rs_file(), "logging.yml");
}
