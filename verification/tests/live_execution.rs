use pihole_control::service::pihole_status;
use pihole_control::state::PiholeError;

// The external tool is not installed where these tests run, so every real
// invocation exercises the failure path of the executor.

#[test]
fn missing_tool_yields_typed_error_not_a_crash() {
    assert_eq!(pihole_status(), Err(PiholeError::ExecutionError));
}
