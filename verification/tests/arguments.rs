use pihole_control::command::disable_args;
use pihole_control::command::duration_token;
use pihole_control::command::enable_args;
use pihole_control::command::status_args;

#[test]
fn disable_without_duration_has_no_token() {
    assert_eq!(disable_args(None), vec!["disable".to_string()]);
}

#[test]
fn disable_with_duration_appends_single_token() {
    assert_eq!(disable_args(Some(5)), vec!["disable".to_string(), "5m".to_string()]);
}

#[test]
fn duration_token_smallest() {
    assert_eq!(duration_token(1), "1m");
}

#[test]
fn duration_token_largest() {
    assert_eq!(duration_token(255), "255m");
}

#[test]
fn duration_token_zero() {
    assert_eq!(duration_token(0), "0m");
}

#[test]
fn duration_token_two_digits() {
    assert_eq!(duration_token(10), "10m");
    assert_eq!(duration_token(42), "42m");
    assert_eq!(duration_token(99), "99m");
}

#[test]
fn duration_token_three_digits() {
    assert_eq!(duration_token(100), "100m");
    assert_eq!(duration_token(207), "207m");
}

#[test]
fn enable_has_subcommand_alone() {
    assert_eq!(enable_args(), vec!["enable".to_string()]);
}

#[test]
fn status_has_subcommand_alone() {
    assert_eq!(status_args(), vec!["status".to_string()]);
}
