use pihole_control::classifier::classify;
use pihole_control::classifier::find_pattern;
use pihole_control::state::ExecOutcome;
use pihole_control::state::Operation;
use pihole_control::state::PiholeError;
use pihole_control::state::State;

fn captured(text: &str) -> ExecOutcome {
    ExecOutcome::Captured(text.to_string())
}

#[test]
fn disable_succeeds_on_disabled_pattern() {
    let r = classify(Operation::Disable, &captured("Pi-hole Disabled\n"));
    assert_eq!(r, Ok(State::Disabled));
}

#[test]
fn disable_fails_without_disabled_pattern() {
    let r = classify(Operation::Disable, &captured("Pi-hole is already Disabled\n"));
    assert_eq!(r, Err(PiholeError::ClassificationFailure));
}

#[test]
fn enable_succeeds_on_enabled_pattern() {
    let r = classify(Operation::Enable, &captured("  [ok] Pi-hole Enabled"));
    assert_eq!(r, Ok(State::Enabled));
}

#[test]
fn enable_fails_without_enabled_pattern() {
    let r = classify(Operation::Enable, &captured("something else entirely"));
    assert_eq!(r, Err(PiholeError::ClassificationFailure));
}

#[test]
fn status_reports_enabled_on_blocking_pattern() {
    let r = classify(Operation::Status, &captured("  [ok] Pi-hole blocking is enabled"));
    assert_eq!(r, Ok(State::Enabled));
}

#[test]
fn status_reports_disabled_on_any_other_text() {
    let r = classify(Operation::Status, &captured("  [no] Pi-hole blocking is disabled"));
    assert_eq!(r, Ok(State::Disabled));
    let r = classify(Operation::Status, &captured(""));
    assert_eq!(r, Ok(State::Disabled));
}

#[test]
fn matching_is_case_sensitive() {
    let r = classify(Operation::Disable, &captured("pi-hole disabled"));
    assert_eq!(r, Err(PiholeError::ClassificationFailure));
}

#[test]
fn execution_failure_is_typed_for_every_operation() {
    for op in [Operation::Disable, Operation::Enable, Operation::Status] {
        let r = classify(op, &ExecOutcome::Failed);
        assert_eq!(r, Err(PiholeError::ExecutionError));
    }
}

#[test]
fn find_pattern_empty_pattern_always_found() {
    assert!(find_pattern("", ""));
    assert!(find_pattern("abc", ""));
}

#[test]
fn find_pattern_whole_text() {
    assert!(find_pattern("Pi-hole Disabled", "Pi-hole Disabled"));
}

#[test]
fn find_pattern_at_the_end() {
    assert!(find_pattern("note: Pi-hole Enabled", "Pi-hole Enabled"));
}

#[test]
fn find_pattern_longer_than_text() {
    assert!(!find_pattern("Pi-hole", "Pi-hole Disabled"));
}

#[test]
fn find_pattern_with_repeated_prefix() {
    assert!(find_pattern("aaab", "aab"));
    assert!(!find_pattern("aab", "aaab"));
}
