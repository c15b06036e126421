use pihole_control::classifier::classify;
use pihole_control::http::response_body;
use pihole_control::http::state_label;
use pihole_control::http::status_code_for;
use pihole_control::state::ExecOutcome;
use pihole_control::state::Operation;
use pihole_control::state::PiholeError;
use pihole_control::state::State;

#[test]
fn success_maps_to_200() {
    assert_eq!(status_code_for(&Ok(State::Disabled)), 200);
    assert_eq!(status_code_for(&Ok(State::Enabled)), 200);
}

#[test]
fn classification_failure_maps_to_422() {
    assert_eq!(status_code_for(&Err(PiholeError::ClassificationFailure)), 422);
}

#[test]
fn execution_error_maps_to_500() {
    assert_eq!(status_code_for(&Err(PiholeError::ExecutionError)), 500);
}

#[test]
fn state_labels() {
    assert_eq!(state_label(State::Enabled), "Enabled");
    assert_eq!(state_label(State::Disabled), "Disabled");
}

#[test]
fn response_bodies() {
    assert_eq!(response_body(State::Enabled), "{\"pihole_status\":\"Enabled\"}");
    assert_eq!(response_body(State::Disabled), "{\"pihole_status\":\"Disabled\"}");
}

#[test]
fn disable_round_trip_against_succeeding_fake_executor() {
    let exec = ExecOutcome::Captured("Pi-hole Disabled".to_string());
    let outcome = classify(Operation::Disable, &exec);
    assert_eq!(status_code_for(&outcome), 200);
    assert_eq!(response_body(outcome.unwrap()), "{\"pihole_status\":\"Disabled\"}");
}

#[test]
fn disable_round_trip_against_refusing_fake_executor() {
    let exec = ExecOutcome::Captured("Pi-hole is already disabled".to_string());
    let outcome = classify(Operation::Disable, &exec);
    assert_eq!(outcome, Err(PiholeError::ClassificationFailure));
    assert_eq!(status_code_for(&outcome), 422);
}
