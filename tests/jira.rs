use tempoit::calendar::{iso_date_text, Date};
use tempoit::duration::Duration;
use tempoit::jira::{
    contains_text, total_duration, upload_accepted, JiraClient, Request, UploadError,
    UploadEvent, UploadStep, Worklog,
};

fn worklog() -> Worklog {
    Worklog {
        duration: Duration::seconds(150),
        date: Date { year: 2019, month: 5, day: 29 },
        issue: "SE-2552".to_owned(),
        description: "comms".to_owned(),
        id: "@3".to_owned(),
    }
}

fn client() -> JiraClient {
    JiraClient::new("https://example.com", "me", true).expect("logged in")
}

fn pairs(form: &[(String, String)]) -> Vec<(&str, &str)> {
    form.iter().map(|(k, v)| (k.as_str(), v.as_str())).collect()
}

#[test]
fn failed_login_gives_no_client() {
    assert!(JiraClient::new("https://example.com", "me", false).is_none());
}

#[test]
fn login_request_form() {
    match JiraClient::login_request("https://example.com", "me", "SECRET-REDACTED") {
        Request::PostForm { url, form } => {
            assert_eq!(url, "https://example.com/rest/gadget/1.0/login");
            assert_eq!(pairs(&form), vec![("os_username", "me"), ("os_password", "SECRET-REDACTED")]);
        }
        other => panic!("unexpected {:?}", other),
    }
}

#[test]
fn estimate_query_address() {
    match client().add_worklog(&worklog(), &UploadEvent::Start) {
        UploadStep::Send(Request::Get { url }) => assert_eq!(
            url,
            "https://example.com/rest/tempo-rest/1.0/worklogs/remainingEstimate/calculate/SE-2552/2019-05-29/2019-05-29/0h 3m?username=me"
        ),
        other => panic!("unexpected {:?}", other),
    }
}

#[test]
fn submission_form_echoes_estimate() {
    let step = client().add_worklog(&worklog(), &UploadEvent::EstimateReceived("1h 20m".to_owned()));
    match step {
        UploadStep::Send(Request::PostForm { url, form }) => {
            assert_eq!(url, "https://example.com/rest/tempo-rest/1.0/worklogs/SE-2552");
            assert_eq!(
                pairs(&form),
                vec![
                    ("actionType", "logTime"),
                    ("ansidate", "2019-05-29"),
                    ("selectedUser", "me"),
                    ("time", "0h 3m"),
                    ("remainingEstimate", "1h 20m"),
                    ("comment", "comms"),
                ]
            );
        }
        other => panic!("unexpected {:?}", other),
    }
}

#[test]
fn response_with_marker_succeeds() {
    let body = "<response valid=\"true\"/>".to_owned();
    let step = client().add_worklog(&worklog(), &UploadEvent::ResponseReceived(body));
    assert!(matches!(step, UploadStep::Finished(Ok(()))));
}

#[test]
fn response_without_marker_is_rejected() {
    let body = "<response valid=\"false\"/>".to_owned();
    match client().add_worklog(&worklog(), &UploadEvent::ResponseReceived(body.clone())) {
        UploadStep::Finished(Err(UploadError::Rejected(b))) => assert_eq!(b, body),
        other => panic!("unexpected {:?}", other),
    }
}

#[test]
fn transport_failure_ends_upload() {
    match client().add_worklog(&worklog(), &UploadEvent::TransportFailed("timeout".to_owned())) {
        UploadStep::Finished(Err(UploadError::Transport(m))) => assert_eq!(m, "timeout"),
        other => panic!("unexpected {:?}", other),
    }
}

#[test]
fn same_worklog_twice_gives_two_submissions() {
    let c = client();
    let first = c.add_worklog(&worklog(), &UploadEvent::EstimateReceived("1h".to_owned()));
    let second = c.add_worklog(&worklog(), &UploadEvent::EstimateReceived("1h".to_owned()));
    assert!(matches!(first, UploadStep::Send(Request::PostForm { .. })));
    assert!(matches!(second, UploadStep::Send(Request::PostForm { .. })));
}

#[test]
fn marker_search() {
    assert!(upload_accepted("xx valid=\"true\" yy"));
    assert!(!upload_accepted("valid=true"));
    assert!(!upload_accepted(""));
    assert!(contains_text("abc", ""));
    assert!(contains_text("abcabd", "abd"));
    assert!(!contains_text("ab", "abc"));
}

#[test]
fn worklog_summary_line() {
    assert_eq!(worklog().describe(), "@3    2019-05-29 0h 3m   [SE-2552] 'comms'");
}

#[test]
fn iso_dates() {
    assert_eq!(iso_date_text(&Date { year: 7, month: 3, day: 9 }), "0007-03-09");
    assert_eq!(iso_date_text(&Date { year: -5, month: 12, day: 31 }), "-0005-12-31");
    assert_eq!(iso_date_text(&Date { year: 12345, month: 1, day: 1 }), "+12345-01-01");
}

#[test]
fn total_of_worklogs() {
    let mut other = worklog();
    other.duration = Duration::hours(1);
    let total = total_duration(&vec![worklog(), other]).unwrap();
    assert_eq!(total.num_seconds(), 3750);
    assert_eq!(total_duration(&vec![]).unwrap().num_seconds(), 0);
    let mut big = worklog();
    big.duration = Duration::seconds(i64::MAX);
    assert!(total_duration(&vec![big.clone(), big]).is_none());
}
