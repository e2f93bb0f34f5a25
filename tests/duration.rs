use tempoit::duration::Duration;
use tempoit::jira::duration_to_jira;

#[test]
fn duration_to_jira_test() {
    // Need to test this to check that rounding is correct.
    assert_eq!(duration_to_jira(&Duration::hours(1)), "1h 0m".to_owned());
    assert_eq!(duration_to_jira(&Duration::minutes(23)), "0h 23m".to_owned());
    assert_eq!(duration_to_jira(&Duration::minutes(123)), "2h 3m".to_owned());
    assert_eq!(duration_to_jira(&Duration::seconds(125)), "0h 2m".to_owned());
    assert_eq!(duration_to_jira(&Duration::seconds(149)), "0h 2m".to_owned());
    assert_eq!(duration_to_jira(&Duration::seconds(150)), "0h 3m".to_owned());
    assert_eq!(duration_to_jira(&Duration::seconds(151)), "0h 3m".to_owned());
    assert_eq!(duration_to_jira(&Duration::seconds(180)), "0h 3m".to_owned());
    assert_eq!(duration_to_jira(&Duration::seconds(181)), "0h 3m".to_owned());
    assert_eq!(duration_to_jira(&Duration::seconds(0)), "0h 1m".to_owned());
    assert_eq!(duration_to_jira(&Duration::seconds(5)), "0h 1m".to_owned());
}

#[test]
fn rounds_half_up_at_minute_boundary() {
    assert_eq!(duration_to_jira(&Duration::seconds(149)), "0h 2m");
    assert_eq!(duration_to_jira(&Duration::seconds(150)), "0h 3m");
    assert_eq!(duration_to_jira(&Duration::seconds(151)), "0h 3m");
}

#[test]
fn zero_minutes_reads_one_minute() {
    assert_eq!(duration_to_jira(&Duration::seconds(0)), "0h 1m");
    assert_eq!(duration_to_jira(&Duration::seconds(29)), "0h 1m");
    assert_eq!(duration_to_jira(&Duration::seconds(30)), "0h 1m");
    assert_eq!(duration_to_jira(&Duration::seconds(31)), "0h 1m");
    assert_eq!(duration_to_jira(&Duration::seconds(90)), "0h 2m");
}

#[test]
fn text_shape_for_many_durations() {
    for secs in [0i64, 1, 59, 60, 3599, 3600, 3629, 3630, 86399, 86400, 1_000_000_007] {
        let text = duration_to_jira(&Duration::seconds(secs));
        let (h, rest) = text.split_once("h ").expect("hours");
        let m = rest.strip_suffix('m').expect("minutes");
        assert!(!h.is_empty() && h.chars().all(|c| c.is_ascii_digit()), "{}", text);
        assert!(!m.is_empty() && m.chars().all(|c| c.is_ascii_digit()), "{}", text);
    }
}

#[test]
fn rounding_can_reach_sixty_minutes() {
    assert_eq!(duration_to_jira(&Duration::seconds(3599)), "0h 60m");
    assert_eq!(duration_to_jira(&Duration::seconds(3629)), "1h 0m");
    assert_eq!(duration_to_jira(&Duration::seconds(3630)), "1h 1m");
}

#[test]
fn negative_durations_round_away_from_zero() {
    assert_eq!(duration_to_jira(&Duration::seconds(-30)), "0h -1m");
    assert_eq!(duration_to_jira(&Duration::seconds(-29)), "0h 1m");
    assert_eq!(duration_to_jira(&Duration::hours(-2)), "-2h 0m");
}

#[test]
fn duration_accessors() {
    let d = Duration::seconds(-3601);
    assert_eq!(d.num_seconds(), -3601);
    assert_eq!(d.num_hours(), -1);
    assert_eq!(d.num_minutes(), -60);
    assert_eq!(d.rounded_minutes(), -60);
    assert_eq!(Duration::between(100, 250).num_seconds(), 150);
    assert_eq!(Duration::minutes(2).plus(&Duration::seconds(5)).num_seconds(), 125);
    let extreme = Duration::seconds(i64::MIN);
    assert_eq!(extreme.num_hours(), -2562047788015215);
    assert_eq!(duration_to_jira(&Duration::seconds(i64::MAX)), "2562047788015215h 30m");
}
