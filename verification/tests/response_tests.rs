use plugin_agent::response::{evaluate_response, DeliveryOutcome, TransportResponse};

fn completed(status: u16, body: &str) -> TransportResponse {
    TransportResponse::Completed { status, body: body.to_owned() }
}

fn failure_detail(out: DeliveryOutcome) -> String {
    match out {
        DeliveryOutcome::Failure { detail } => detail,
        _ => panic!("expected a failure"),
    }
}

#[test]
fn ok_body_on_200_succeeds() {
    let out = evaluate_response(&completed(200, "{\"status\": \"ok\"}"));
    assert!(matches!(out, DeliveryOutcome::Success));
}

#[test]
fn other_status_on_200_fails_with_the_error_field() {
    let out = evaluate_response(&completed(
        200,
        "{\"status\": \"error\", \"error\": \"boom\"}",
    ));
    assert_eq!(failure_detail(out), "FAILED 200, boom");
}

#[test]
fn unreadable_body_on_200_fails_generically() {
    let out = evaluate_response(&completed(200, "not json"));
    assert_eq!(failure_detail(out), "FAILED 200, no data returned");
}

#[test]
fn missing_error_field_yields_empty_detail() {
    let out = evaluate_response(&completed(200, "{\"status\": \"error\"}"));
    assert_eq!(failure_detail(out), "FAILED 200, ");
}

#[test]
fn forbidden_is_fatal_with_the_body() {
    let out = evaluate_response(&completed(403, "{\"status\": \"denied\"}"));
    match out {
        DeliveryOutcome::Fatal { detail } => assert_eq!(detail, "{\"status\": \"denied\"}"),
        _ => panic!("expected the fatal variant"),
    }
}

#[test]
fn unavailable_is_absorbed_as_transient() {
    let out = evaluate_response(&completed(503, ""));
    assert!(matches!(out, DeliveryOutcome::TransientUnavailable));
}

#[test]
fn other_code_with_empty_body_synthesizes_no_data_returned() {
    let out = evaluate_response(&completed(404, ""));
    assert_eq!(failure_detail(out), "FAILED 404, no data returned");
}

#[test]
fn other_code_with_readable_body_extracts_the_error_field() {
    let out = evaluate_response(&completed(500, "{\"error\": \"overloaded\"}"));
    assert_eq!(failure_detail(out), "FAILED 500, overloaded");
}

#[test]
fn transport_error_fails_with_its_detail() {
    let out = evaluate_response(&TransportResponse::TransportError {
        detail: "timed out".to_owned(),
    });
    assert_eq!(failure_detail(out), "timed out");
}
