use vstd::prelude::*;

use crate::calendar::{iso_date, iso_date_text, Date};
use crate::duration::{jira_text, Duration};
use crate::text::{pad_right, pad_right_text};

pub use crate::duration::duration_to_jira;

verus! {

/// A worklog to be uploaded: time spent on one issue, on one date, with a description.
#[derive(Clone, Debug)]
pub struct Worklog {
    /// The time spent working.
    pub duration: Duration,
    /// The date on which to log the time.
    pub date: Date,
    /// The issue key, for example `"SE-1234"`.
    pub issue: String,
    /// What was done.
    pub description: String,
    /// The identifier of the source interval, used to record the outcome of the upload.
    pub id: String,
}

} // verus!

verus! {

/// A request for the remote service to send.
#[derive(Clone, Debug)]
pub enum Request {
    Get { url: String },
    PostForm { url: String, form: Vec<(String, String)> },
}

/// The fields of a form, as text.
pub open spec fn form_view(form: Seq<(String, String)>) -> Seq<(Seq<char>, Seq<char>)> {
    form.map_values(|p: (String, String)| (p.0@, p.1@))
}

/// What became of one upload.
#[derive(Clone, Debug)]
pub enum UploadError {
    /// A request could not be sent, or its answer was an error status.
    Transport(String),
    /// The service answered, but its answer does not say that the worklog was taken; it holds
    /// that answer.
    Rejected(String),
}

/// What the remote side said last, while one worklog is uploaded.
#[derive(Clone, Debug)]
pub enum UploadEvent {
    /// Nothing has been sent yet.
    Start,
    /// The remaining-estimate query answered with this text.
    EstimateReceived(String),
    /// The worklog submission answered with this text.
    ResponseReceived(String),
    /// A request failed, for this reason.
    TransportFailed(String),
}

/// What to do next while one worklog is uploaded.
#[derive(Debug)]
pub enum UploadStep {
    Send(Request),
    Finished(Result<(), UploadError>),
}

pub open spec fn login_path() -> Seq<char> {
    "/rest/gadget/1.0/login"@
}

pub open spec fn worklogs_path() -> Seq<char> {
    "/rest/tempo-rest/1.0/worklogs/"@
}

pub open spec fn estimate_path() -> Seq<char> {
    "/rest/tempo-rest/1.0/worklogs/remainingEstimate/calculate/"@
}

/// The text that a successful submission answers with.
pub open spec fn success_marker() -> Seq<char> {
    "valid=\"true\""@
}

/// `needle` stands in `hay` from position `i` on.
pub open spec fn occurs_at(hay: Seq<char>, needle: Seq<char>, i: int) -> bool {
    0 <= i && i + needle.len() <= hay.len() && hay.subrange(i, i + needle.len()) == needle
}

pub open spec fn contains(hay: Seq<char>, needle: Seq<char>) -> bool {
    exists|i: int| occurs_at(hay, needle, i)
}

/// The address of the remaining-estimate query for a worklog.
pub open spec fn estimate_url(base_url: Seq<char>, username: Seq<char>, w: Worklog) -> Seq<char> {
    let date = iso_date(w.date);
    base_url + estimate_path() + w.issue@ + seq!['/'] + date + seq!['/'] + date + seq!['/']
        + jira_text(w.duration@) + "?username="@ + username
}

/// The address to which a worklog is submitted.
pub open spec fn worklog_url(base_url: Seq<char>, w: Worklog) -> Seq<char> {
    base_url + worklogs_path() + w.issue@
}

/// The form that submits a worklog.
pub open spec fn worklog_form(username: Seq<char>, w: Worklog, remaining: Seq<char>) -> Seq<
    (Seq<char>, Seq<char>),
> {
    seq![
        ("actionType"@, "logTime"@),
        ("ansidate"@, iso_date(w.date)),
        ("selectedUser"@, username),
        ("time"@, jira_text(w.duration@)),
        ("remainingEstimate"@, remaining),
        ("comment"@, w.description@),
    ]
}

/// Whether `needle` stands in `hay`.
pub fn contains_text(hay: &str, needle: &str) -> (r: bool)
    ensures
        r == contains(hay@, needle@),
{
    let n = hay.unicode_len();
    let m = needle.unicode_len();
    if m > n {
        assert forall|i: int| !occurs_at(hay@, needle@, i) by {}
        return false;
    }
    let mut i: usize = 0;
    while i <= n - m
        invariant
            n == hay@.len(),
            m == needle@.len(),
            m <= n,
            i <= n - m + 1,
            forall|k: int| 0 <= k < i ==> !occurs_at(hay@, needle@, k),
        decreases n - m + 1 - i,
    {
        let mut j: usize = 0;
        let mut same = true;
        while j < m
            invariant
                n == hay@.len(),
                m == needle@.len(),
                i + m <= n,
                j <= m,
                same == forall|k: int| 0 <= k < j ==> hay@[i + k] == needle@[k],
            decreases m - j,
        {
            if hay.get_char(i + j) != needle.get_char(j) {
                same = false;
            }
            j = j + 1;
        }
        if same {
            assert(hay@.subrange(i as int, i + m) =~= needle@);
            assert(occurs_at(hay@, needle@, i as int));
            return true;
        }
        assert(!occurs_at(hay@, needle@, i as int)) by {
            if occurs_at(hay@, needle@, i as int) {
                assert forall|k: int| 0 <= k < m implies hay@[i + k] == needle@[k] by {
                    assert(hay@.subrange(i as int, i + m)[k] == needle@[k]);
                }
            }
        }
        i = i + 1;
    }
    false
}

/// Whether the answer to a submission says that the worklog was taken.
pub fn upload_accepted(body: &str) -> (r: bool)
    ensures
        r == contains(body@, success_marker()),
{
    contains_text(body, "valid=\"true\"")
}

/// A session with the time-logging service, once it has logged in.
pub struct JiraClient {
    username: String,
    base_url: String,
}

impl JiraClient {
    pub closed spec fn username(&self) -> Seq<char> {
        self.username@
    }

    pub closed spec fn base_url(&self) -> Seq<char> {
        self.base_url@
    }

    /// The request that logs in to the service at `base_url` (given without a trailing slash).
    pub fn login_request(base_url: &str, username: &str, password: &str) -> (r: Request)
        ensures
            r matches Request::PostForm { url, form } && url@ == base_url@ + login_path()
                && form_view(form@) == seq![
                ("os_username"@, username@),
                ("os_password"@, password@),
            ],
    {
        let mut url = String::from_str(base_url);
        url.append("/rest/gadget/1.0/login");
        let form = vec![
            (String::from_str("os_username"), String::from_str(username)),
            (String::from_str("os_password"), String::from_str(password)),
        ];
        assert(form_view(form@) =~= seq![
            ("os_username"@, username@),
            ("os_password"@, password@),
        ]);
        Request::PostForm { url, form }
    }

    /// The session, once the login answer has said whether it succeeded; `None` where it did
    /// not.
    pub fn new(base_url: &str, username: &str, login_succeeded: bool) -> (r: Option<JiraClient>)
        ensures
            r is Some <==> login_succeeded,
            r matches Some(c) ==> c.base_url() == base_url@ && c.username() == username@,
    {
        if login_succeeded {
            Some(JiraClient { username: String::from_str(username), base_url: String::from_str(base_url) })
        } else {
            None
        }
    }

    /// The query that gives the remaining estimate of the worklog's issue once it is logged.
    pub fn get_remaining_estimate(&self, worklog: &Worklog) -> (r: Request)
        ensures
            r matches Request::Get { url } && url@ == estimate_url(
                self.base_url(),
                self.username(),
                *worklog,
            ),
    {
        let date = iso_date_text(&worklog.date);
        let time = duration_to_jira(&worklog.duration);
        let mut url = self.base_url.clone();
        url.append("/rest/tempo-rest/1.0/worklogs/remainingEstimate/calculate/");
        url.append(worklog.issue.as_str());
        url.append("/");
        url.append(date.as_str());
        url.append("/");
        url.append(date.as_str());
        url.append("/");
        url.append(time.as_str());
        url.append("?username=");
        url.append(self.username.as_str());
        proof {
            reveal_strlit("/");
        }
        assert(url@ =~= estimate_url(self.base_url(), self.username(), *worklog));
        Request::Get { url }
    }

    /// The submission of the worklog, with the remaining estimate that the query gave.
    pub fn submit_worklog(&self, worklog: &Worklog, remaining: &str) -> (r: Request)
        ensures
            r matches Request::PostForm { url, form } && url@ == worklog_url(
                self.base_url(),
                *worklog,
            ) && form_view(form@) == worklog_form(self.username(), *worklog, remaining@),
    {
        let mut url = self.base_url.clone();
        url.append("/rest/tempo-rest/1.0/worklogs/");
        url.append(worklog.issue.as_str());
        let form = vec![
            (String::from_str("actionType"), String::from_str("logTime")),
            (String::from_str("ansidate"), iso_date_text(&worklog.date)),
            (String::from_str("selectedUser"), self.username.clone()),
            (String::from_str("time"), duration_to_jira(&worklog.duration)),
            (String::from_str("remainingEstimate"), String::from_str(remaining)),
            (String::from_str("comment"), worklog.description.clone()),
        ];
        assert(form_view(form@) =~= worklog_form(self.username(), *worklog, remaining@));
        Request::PostForm { url, form }
    }

    /// One step of uploading a worklog: first the remaining-estimate query, then the submission
    /// with the estimate it gave, then the verdict read from the submission's answer. A failed
    /// request ends the upload. Uploading twice logs the time twice: the service cannot tell.
    pub fn add_worklog(&self, worklog: &Worklog, event: &UploadEvent) -> (r: UploadStep)
        ensures
            event is Start ==> (r matches UploadStep::Send(Request::Get { url }) && url@
                == estimate_url(self.base_url(), self.username(), *worklog)),
            event matches UploadEvent::EstimateReceived(est) ==> (r matches UploadStep::Send(
                Request::PostForm { url, form },
            ) && url@ == worklog_url(self.base_url(), *worklog) && form_view(form@)
                == worklog_form(self.username(), *worklog, est@)),
            event matches UploadEvent::ResponseReceived(body) ==> (r matches UploadStep::Finished(
                res,
            ) && (contains(body@, success_marker()) ==> res is Ok) && (!contains(
                body@,
                success_marker(),
            ) ==> (res matches Err(UploadError::Rejected(b)) && b@ == body@))),
            event matches UploadEvent::TransportFailed(msg) ==> (r matches UploadStep::Finished(
                Err(UploadError::Transport(m)),
            ) && m@ == msg@),
    {
        match event {
            UploadEvent::Start => UploadStep::Send(self.get_remaining_estimate(worklog)),
            UploadEvent::EstimateReceived(est) => UploadStep::Send(
                self.submit_worklog(worklog, est.as_str()),
            ),
            UploadEvent::ResponseReceived(body) => {
                if upload_accepted(body.as_str()) {
                    UploadStep::Finished(Ok(()))
                } else {
                    UploadStep::Finished(Err(UploadError::Rejected(body.clone())))
                }
            },
            UploadEvent::TransportFailed(msg) => UploadStep::Finished(
                Err(UploadError::Transport(msg.clone())),
            ),
        }
    }
}

} // verus!

verus! {

/// The one-line summary of a worklog: id, date, duration, issue, description.
pub open spec fn worklog_line(w: Worklog) -> Seq<char> {
    pad_right(w.id@, 5) + seq![' '] + iso_date(w.date) + seq![' '] + pad_right(
        jira_text(w.duration@),
        7,
    ) + seq![' ', '['] + w.issue@ + seq![']', ' ', '\''] + w.description@ + seq!['\'']
}

impl Worklog {
    /// The one-line summary of the worklog, as `id date duration [issue] 'description'`, the id
    /// padded to 5 characters and the duration to 7.
    pub fn describe(&self) -> (r: String)
        ensures
            r@ == worklog_line(*self),
    {
        let mut r = pad_right_text(self.id.as_str(), 5);
        r.append(" ");
        let date = iso_date_text(&self.date);
        r.append(date.as_str());
        r.append(" ");
        let time = duration_to_jira(&self.duration);
        let time = pad_right_text(time.as_str(), 7);
        r.append(time.as_str());
        r.append(" [");
        r.append(self.issue.as_str());
        r.append("] '");
        r.append(self.description.as_str());
        r.append("'");
        proof {
            reveal_strlit(" ");
            reveal_strlit(" [");
            reveal_strlit("] '");
            reveal_strlit("'");
        }
        assert(r@ =~= worklog_line(*self));
        r
    }
}

} // verus!

verus! {

/// The total seconds of the worklogs' durations.
pub open spec fn total_secs(ws: Seq<Worklog>) -> int
    decreases ws.len(),
{
    if ws.len() == 0 {
        0
    } else {
        total_secs(ws.drop_last()) + ws.last().duration@
    }
}

/// The sum of the worklogs' durations; `None` where it does not fit in a duration.
pub fn total_duration(worklogs: &Vec<Worklog>) -> (r: Option<Duration>)
    ensures
        r matches Some(d) ==> d@ == total_secs(worklogs@),
        r is None ==> exists|k: int|
            0 < k <= worklogs@.len() && !(i64::MIN <= #[trigger] total_secs(worklogs@.take(k))
                <= i64::MAX),
{
    let mut total = Duration::seconds(0);
    let mut i: usize = 0;
    while i < worklogs.len()
        invariant
            i <= worklogs@.len(),
            total@ == total_secs(worklogs@.take(i as int)),
        decreases worklogs@.len() - i,
    {
        let ghost t = worklogs@.take(i + 1);
        assert(t.drop_last() =~= worklogs@.take(i as int));
        let secs = worklogs[i].duration.num_seconds();
        let sum = total.num_seconds().checked_add(secs);
        match sum {
            Some(s) => {
                total = Duration::seconds(s);
            },
            None => {
                assert(total_secs(t) == total@ + secs);
                assert(!(i64::MIN <= total_secs(worklogs@.take(i + 1)) <= i64::MAX));
                return None;
            },
        }
        i = i + 1;
    }
    assert(worklogs@.take(worklogs@.len() as int) =~= worklogs@);
    Some(total)
}

} // verus!
