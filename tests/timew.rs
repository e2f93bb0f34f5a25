use chrono::{Datelike, TimeZone};
use tempoit::calendar::Date;
use tempoit::duration::Duration;
use tempoit::pattern::IssuePattern;
use tempoit::timew::{classify, first_issue_tag, parse_interval, Interval, IntervalError, TimewClient};

fn pattern() -> IssuePattern {
    IssuePattern::new(r"^(?i:FAL|SE|BB|OC|MNG|BIZ|ADMIN)-\d+$").expect("valid pattern")
}

fn interval(end: Option<i64>, tags: &[&str], annotation: Option<&str>) -> Interval {
    Interval {
        id: "@7".to_owned(),
        start: 1704099600,
        end,
        tags: tags.iter().map(|t| t.to_string()).collect(),
        annotation: annotation.map(|a| a.to_owned()),
    }
}

fn local_date_of(secs: i64) -> Date {
    let d = chrono::Local.timestamp_opt(secs, 0).single().unwrap().date_naive();
    Date { year: d.year(), month: d.month(), day: d.day() }
}

#[test]
fn open_interval_is_open() {
    let p = pattern();
    for i in [
        interval(None, &["se-1"], Some("work")),
        interval(None, &[], None),
        interval(None, &["misc"], Some("x")),
    ] {
        assert!(matches!(parse_interval(&i, &p), Err(IntervalError::Open)));
    }
}

#[test]
fn untagged_interval() {
    let p = pattern();
    let i = interval(Some(1704105000), &["misc", "XY-12", "se-12x"], Some("work"));
    assert!(matches!(parse_interval(&i, &p), Err(IntervalError::Untagged)));
    let none = interval(Some(1704105000), &[], Some("work"));
    assert!(matches!(parse_interval(&none, &p), Err(IntervalError::Untagged)));
}

#[test]
fn tag_match_ignores_case_and_upper_cases() {
    let p = pattern();
    let i = interval(Some(1704105000), &["se-100"], Some("work"));
    let w = parse_interval(&i, &p).expect("worklog");
    assert_eq!(w.issue, "SE-100");
}

#[test]
fn first_matching_tag_wins() {
    let p = pattern();
    let tags = vec!["misc".to_owned(), "bb-3".to_owned(), "SE-4".to_owned()];
    assert_eq!(first_issue_tag(&tags, &p), Some(1));
    let i = interval(Some(1704105000), &["misc", "bb-3", "SE-4"], Some("work"));
    assert_eq!(parse_interval(&i, &p).unwrap().issue, "BB-3");
}

#[test]
fn missing_annotation() {
    let p = pattern();
    let i = interval(Some(1704105000), &["SE-9"], None);
    assert!(matches!(parse_interval(&i, &p), Err(IntervalError::NoDescription)));
}

#[test]
fn untagged_before_missing_annotation() {
    let p = pattern();
    let i = interval(Some(1704105000), &["misc"], None);
    assert!(matches!(parse_interval(&i, &p), Err(IntervalError::Untagged)));
}

#[test]
fn empty_annotation_is_accepted() {
    let p = pattern();
    let i = interval(Some(1704105000), &["SE-9"], Some(""));
    assert_eq!(parse_interval(&i, &p).unwrap().description, "");
}

#[test]
fn classify_success_case() {
    let p = IssuePattern::new(r"(?i)SE-\d+").unwrap();
    let start = chrono::Utc.with_ymd_and_hms(2024, 1, 1, 9, 0, 0).unwrap().timestamp();
    let end = chrono::Utc.with_ymd_and_hms(2024, 1, 1, 10, 30, 0).unwrap().timestamp();
    let i = Interval {
        id: "@1".to_owned(),
        start,
        end: Some(end),
        tags: vec!["se-42".to_owned(), "misc".to_owned()],
        annotation: Some("fix bug".to_owned()),
    };
    let w = parse_interval(&i, &p).expect("worklog");
    assert_eq!(w.duration, Duration::minutes(90));
    assert_eq!(w.issue, "SE-42");
    assert_eq!(w.description, "fix bug");
    assert_eq!(w.id, "@1");
    assert_eq!(w.date, local_date_of(end));
}

#[test]
fn classify_with_given_results() {
    let date = Date { year: 2024, month: 1, day: 1 };
    let closed = interval(Some(1704105000), &["se-1"], Some("work"));
    let w = classify(&closed, date, Some("SE-1".to_owned())).unwrap();
    assert_eq!(w.duration.num_seconds(), 5400);
    assert_eq!(w.date, date);
    assert_eq!(w.issue, "SE-1");
    assert_eq!(w.description, "work");
    assert_eq!(w.id, "@7");
    assert!(matches!(classify(&interval(None, &[], None), date, None), Err(IntervalError::Open)));
    assert!(matches!(classify(&closed, date, None), Err(IntervalError::Untagged)));
    let bare = interval(Some(1704105000), &["se-1"], None);
    assert!(matches!(classify(&bare, date, Some("SE-1".to_owned())), Err(IntervalError::NoDescription)));
    let untagged_bare = interval(Some(1704105000), &[], None);
    assert!(matches!(classify(&untagged_bare, date, None), Err(IntervalError::Untagged)));
}

#[test]
fn invalid_pattern_is_refused() {
    assert!(IssuePattern::new("(unclosed").is_none());
    let p = IssuePattern::new("ab+c").unwrap();
    assert!(p.is_match("xxabbbcxx"));
    assert!(!p.is_match("ac"));
}

#[test]
fn interval_from_export_fields() {
    let i = Interval::from_export(
        12,
        "20240101T090000Z",
        Some("20240101T103000Z"),
        vec!["se-42".to_owned()],
        Some("fix bug".to_owned()),
    )
    .expect("interval");
    assert_eq!(i.id, "@12");
    assert_eq!(i.start, 1704099600);
    assert_eq!(i.end, Some(1704105000));
    assert_eq!(i.tags, vec!["se-42".to_owned()]);
    assert_eq!(i.annotation.as_deref(), Some("fix bug"));
    let open = Interval::from_export(0, "20240101T090000Z", None, vec![], None).unwrap();
    assert_eq!(open.id, "@0");
    assert_eq!(open.end, None);
    assert!(Interval::from_export(1, "2024-01-01", None, vec![], None).is_none());
    assert!(Interval::from_export(1, "20240101T090000Z", Some("bad"), vec![], None).is_none());
    assert!(Interval::from_export(1, "+260000101T000000Z", None, vec![], None).is_none());
    assert!(i.is_well_formed());
    let far = Interval { id: "@9".to_owned(), start: 0, end: Some(9_000_000_000_000), tags: vec![], annotation: None };
    assert!(!far.is_well_formed());
}

#[test]
fn interval_summary_line() {
    let i = Interval {
        id: "@3".to_owned(),
        start: 1704099600,
        end: Some(1704105000 + 59),
        tags: vec!["se-42".to_owned(), "misc".to_owned()],
        annotation: Some("fix bug".to_owned()),
    };
    assert_eq!(i.describe(), "@3    2024-01-01 1h 30m  [  se-42, misc  ] 'fix bug'");
    let open = Interval { id: "@4".to_owned(), start: 1704099600, end: None, tags: vec![], annotation: None };
    assert_eq!(open.describe(), "@4    2024-01-01 open    [               ] '-'");
}

#[test]
fn get_worklogs_keeps_order() {
    let p = pattern();
    let client = TimewClient::new();
    let intervals = vec![
        interval(None, &["SE-1"], Some("a")),
        interval(Some(1704105000), &["SE-2"], Some("b")),
        interval(Some(1704105000), &["x"], Some("c")),
    ];
    let r = client.get_worklogs(&intervals, &p);
    assert_eq!(r.len(), 3);
    assert!(matches!(r[0], Err(IntervalError::Open)));
    assert_eq!(r[1].as_ref().unwrap().issue, "SE-2");
    assert!(matches!(r[2], Err(IntervalError::Untagged)));
}

#[test]
fn recorder_commands() {
    let client = TimewClient::new();
    assert_eq!(client.export_args(), vec!["export", "oc", "log"]);
    assert_eq!(
        client.record_success("@5"),
        vec![vec!["tag", "@5", "logged"], vec!["untag", "@5", "log", "logfail"]]
    );
    assert_eq!(client.record_fail("@5"), vec![vec!["tag", "@5", "logfail"]]);
}
