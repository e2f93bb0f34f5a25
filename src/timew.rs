use vstd::prelude::*;

use crate::calendar::{local_date, Date, MAX_INSTANT, MIN_INSTANT};
use chrono::Datelike;

use crate::calendar::iso_date;
use crate::calendar::iso_date_text;
use crate::duration::{trunc_div, Duration};
use crate::jira::Worklog;
use crate::pattern::{regex_matches, upper_of, uppercase, IssuePattern};
use crate::text::{
    center, center_text, decimal, decimal_text, join, join_text, pad_right, pad_right_text,
    signed_decimal, signed_decimal_text,
};

verus! {

/// The instant, in seconds after the Unix epoch, that a `YYYYMMDDTHHMMSSZ` timestamp names, read
/// as UTC; `None` where the text is not such a timestamp.
pub uninterp spec fn timestamp_of(s: Seq<char>) -> Option<int>;

/// Relies on chrono's NaiveDateTime::parse_from_str with the format `%Y%m%dT%H%M%SZ`, and on
/// NaiveDateTime::and_utc and DateTime::timestamp to count the seconds from the Unix epoch.
#[verifier::external_body]
fn parse_timestamp(s: &str) -> (r: Option<i64>)
    ensures
        r is Some <==> timestamp_of(s@) is Some,
        r matches Some(t) ==> timestamp_of(s@) == Some(t as int),
{
    match chrono::NaiveDateTime::parse_from_str(s, "%Y%m%dT%H%M%SZ") {
        Ok(t) => Some(t.and_utc().timestamp()),
        Err(_) => None,
    }
}

/// A recorded span of tracked time. Instants are seconds after the Unix epoch, in UTC.
#[derive(Clone, Debug)]
pub struct Interval {
    /// The identifier by which the time tracker names the interval, such as `"@3"`.
    pub id: String,
    pub start: i64,
    /// `None` while the interval is still running.
    pub end: Option<i64>,
    pub tags: Vec<String>,
    pub annotation: Option<String>,
}

/// Why an interval cannot become a worklog.
#[derive(Clone, Copy, Debug, PartialEq, Eq, Structural)]
pub enum IntervalError {
    /// The interval has no end yet.
    Open,
    /// No tag matches the issue pattern.
    Untagged,
    /// The interval has no annotation.
    NoDescription,
}

/// An instant that the library handles.
pub open spec fn in_range(t: int) -> bool {
    MIN_INSTANT <= t <= MAX_INSTANT
}

impl Interval {
    /// Start and end lie within the instants that the library handles.
    pub open spec fn well_formed(&self) -> bool {
        &&& in_range(self.start as int)
        &&& (self.end matches Some(e) ==> in_range(e as int))
    }

    /// Whether start and end lie within the instants that the library handles.
    pub fn is_well_formed(&self) -> (r: bool)
        ensures
            r == self.well_formed(),
    {
        MIN_INSTANT <= self.start && self.start <= MAX_INSTANT && match self.end {
            Some(e) => MIN_INSTANT <= e && e <= MAX_INSTANT,
            None => true,
        }
    }
}

/// `i` is the first tag that the pattern matches.
pub open spec fn is_first_match(tags: Seq<String>, p: Seq<char>, i: int) -> bool {
    &&& 0 <= i < tags.len()
    &&& regex_matches(p, tags[i]@)
    &&& forall|j: int| 0 <= j < i ==> !regex_matches(p, #[trigger] tags[j]@)
}

/// The pattern matches no tag.
pub open spec fn no_match(tags: Seq<String>, p: Seq<char>) -> bool {
    forall|j: int| 0 <= j < tags.len() ==> !regex_matches(p, #[trigger] tags[j]@)
}

/// The first tag that the pattern matches, where one does.
pub open spec fn first_match(tags: Seq<String>, p: Seq<char>) -> int {
    choose|i: int| is_first_match(tags, p, i)
}

/// `w` is the worklog of a closed, annotated interval, logged on `date` under `issue`.
pub open spec fn is_worklog_of(w: Worklog, interval: Interval, date: Date, issue: Seq<char>) -> bool {
    &&& interval.end is Some
    &&& interval.annotation is Some
    &&& w.duration@ == interval.end->0 - interval.start
    &&& w.date == date
    &&& w.issue@ == issue
    &&& w.description@ == interval.annotation->0@
    &&& w.id@ == interval.id@
}

/// What parsing `interval` against `p` gives: the open check first, then the issue tag, then
/// the annotation. The date of a worklog is the end's calendar date in the machine's local time,
/// which depends on the machine.
pub open spec fn parse_outcome(
    interval: Interval,
    p: Seq<char>,
    r: Result<Worklog, IntervalError>,
) -> bool {
    if interval.end is None {
        r == Err::<Worklog, IntervalError>(IntervalError::Open)
    } else if no_match(interval.tags@, p) {
        r == Err::<Worklog, IntervalError>(IntervalError::Untagged)
    } else if interval.annotation is None {
        r == Err::<Worklog, IntervalError>(IntervalError::NoDescription)
    } else {
        &&& r is Ok
        &&& r->Ok_0.date.well_formed()
        &&& is_worklog_of(
            r->Ok_0,
            interval,
            r->Ok_0.date,
            upper_of(interval.tags@[first_match(interval.tags@, p)]@),
        )
    }
}

proof fn lemma_first_match_unique(tags: Seq<String>, p: Seq<char>, i: int)
    requires
        is_first_match(tags, p, i),
    ensures
        first_match(tags, p) == i,
{
    let j = first_match(tags, p);
    assert(is_first_match(tags, p, j));
    if j < i {
        assert(!regex_matches(p, tags[j]@));
    } else if i < j {
        assert(!regex_matches(p, tags[i]@));
    }
}

/// The index of the first tag that the pattern matches.
pub fn first_issue_tag(tags: &Vec<String>, pattern: &IssuePattern) -> (r: Option<usize>)
    ensures
        r matches Some(i) ==> is_first_match(tags@, pattern@, i as int),
        r is None ==> no_match(tags@, pattern@),
{
    let mut i: usize = 0;
    while i < tags.len()
        invariant
            i <= tags@.len(),
            forall|j: int| 0 <= j < i ==> !regex_matches(pattern@, #[trigger] tags@[j]@),
        decreases tags@.len() - i,
    {
        if pattern.is_match(tags[i].as_str()) {
            return Some(i);
        }
        i = i + 1;
    }
    None
}

/// Turns an interval into a worklog, given the local date of its end and the issue key taken
/// from its tags (`None` where no tag names an issue). The checks come in this order: the
/// interval is closed, it names an issue, it has an annotation.
pub fn classify(interval: &Interval, date: Date, issue: Option<String>) -> (r: Result<
    Worklog,
    IntervalError,
>)
    requires
        interval.well_formed(),
    ensures
        interval.end is None ==> r == Err::<Worklog, IntervalError>(IntervalError::Open),
        interval.end is Some && issue is None ==> r == Err::<Worklog, IntervalError>(
            IntervalError::Untagged,
        ),
        interval.end is Some && issue is Some && interval.annotation is None ==> r == Err::<
            Worklog,
            IntervalError,
        >(IntervalError::NoDescription),
        r is Ok <==> (interval.end is Some && issue is Some && interval.annotation is Some),
        r matches Ok(w) ==> is_worklog_of(w, *interval, date, issue->0@),
{
    let end = match interval.end {
        Some(end) => end,
        None => {
            return Err(IntervalError::Open);
        },
    };
    let duration = Duration::between(interval.start, end);
    let issue = match issue {
        Some(issue) => issue,
        None => {
            return Err(IntervalError::Untagged);
        },
    };
    let description = match &interval.annotation {
        Some(ann) => ann.clone(),
        None => {
            return Err(IntervalError::NoDescription);
        },
    };
    Ok(Worklog { duration, date, issue, description, id: interval.id.clone() })
}

/// Turns an interval into a worklog: its duration runs from start to end, its date is the end's
/// calendar date in local time, its issue is the first tag that `pattern` matches, upper-cased,
/// and its description is the annotation.
pub fn parse_interval(interval: &Interval, pattern: &IssuePattern) -> (r: Result<
    Worklog,
    IntervalError,
>)
    requires
        interval.well_formed(),
    ensures
        parse_outcome(*interval, pattern@, r),
{
    let end = match interval.end {
        Some(end) => end,
        None => {
            return Err(IntervalError::Open);
        },
    };
    let date = local_date(end);
    let issue = match first_issue_tag(&interval.tags, pattern) {
        Some(i) => {
            proof {
                lemma_first_match_unique(interval.tags@, pattern@, i as int);
            }
            Some(uppercase(interval.tags[i].as_str()))
        },
        None => None,
    };
    classify(interval, date, issue)
}

/// `s` is a timestamp of an instant that the library handles.
pub open spec fn readable(s: Seq<char>) -> bool {
    timestamp_of(s) matches Some(t) && in_range(t)
}

/// Reads a `YYYYMMDDTHHMMSSZ` timestamp; `None` where it cannot be read or lies outside the
/// instants that the library handles.
fn read_instant(s: &str) -> (r: Option<i64>)
    ensures
        r is Some <==> readable(s@),
        r matches Some(t) ==> timestamp_of(s@) == Some(t as int) && in_range(t as int),
{
    match parse_timestamp(s) {
        Some(t) => if MIN_INSTANT <= t && t <= MAX_INSTANT {
            Some(t)
        } else {
            None
        },
        None => None,
    }
}

impl Interval {
    /// Builds an interval from the fields of the time tracker's export: the number `id` becomes
    /// `"@id"`, and the timestamps are read as `YYYYMMDDTHHMMSSZ`. `None` where a timestamp
    /// cannot be read or lies outside the instants that the library handles.
    pub fn from_export(
        id: u32,
        start: &str,
        end: Option<&str>,
        tags: Vec<String>,
        annotation: Option<String>,
    ) -> (r: Option<Interval>)
        ensures
            r is Some <==> (readable(start@) && (end matches Some(e) ==> readable(e@))),
            r matches Some(i) ==> {
                &&& i.well_formed()
                &&& i.id@ == seq!['@'] + decimal(id as nat)
                &&& timestamp_of(start@) == Some(i.start as int)
                &&& (end is None <==> i.end is None)
                &&& (end matches Some(e) ==> timestamp_of(e@) == Some(i.end->0 as int))
                &&& i.tags@ == tags@
                &&& i.annotation == annotation
            },
    {
        let start = match read_instant(start) {
            Some(t) => t,
            None => {
                return None;
            },
        };
        let end = match end {
            Some(e) => match read_instant(e) {
                Some(t) => Some(t),
                None => {
                    return None;
                },
            },
            None => None,
        };
        let mut name = String::from_str("@");
        proof {
            reveal_strlit("@");
        }
        let digits = decimal_text(id as u64);
        name.append(digits.as_str());
        Some(Interval { id: name, start, end, tags, annotation })
    }
}

/// The argument lists of commands, as text.
pub open spec fn arg_lists(v: Seq<Vec<String>>) -> Seq<Seq<Seq<char>>> {
    v.map_values(|a: Vec<String>| a@.map_values(|s: String| s@))
}

/// Reads intervals from the time tracker and records the outcome of their uploads. It runs
/// nothing itself: it gives the arguments of each `timew` command to run.
pub struct TimewClient {}

impl TimewClient {
    pub fn new() -> (r: TimewClient) {
        TimewClient {  }
    }

    /// The arguments of the command that exports the intervals to upload.
    pub fn export_args(&self) -> (r: Vec<String>)
        ensures
            r@.map_values(|s: String| s@) == seq!["export"@, "oc"@, "log"@],
    {
        let r = vec![String::from_str("export"), String::from_str("oc"), String::from_str("log")];
        assert(r@.map_values(|s: String| s@) =~= seq!["export"@, "oc"@, "log"@]);
        r
    }

    /// Turns each exported interval into a worklog or the reason it cannot be one, in order.
    pub fn get_worklogs(&self, intervals: &Vec<Interval>, pattern: &IssuePattern) -> (r: Vec<
        Result<Worklog, IntervalError>,
    >)
        requires
            forall|i: int| 0 <= i < intervals@.len() ==> (#[trigger] intervals@[i]).well_formed(),
        ensures
            r@.len() == intervals@.len(),
            forall|i: int|
                0 <= i < r@.len() ==> parse_outcome(intervals@[i], pattern@, #[trigger] r@[i]),
    {
        let mut r: Vec<Result<Worklog, IntervalError>> = Vec::new();
        let mut i: usize = 0;
        while i < intervals.len()
            invariant
                i <= intervals@.len(),
                r@.len() == i,
                forall|k: int| 0 <= k < intervals@.len() ==> (#[trigger] intervals@[k]).well_formed(),
                forall|k: int|
                    0 <= k < i ==> parse_outcome(intervals@[k], pattern@, #[trigger] r@[k]),
            decreases intervals@.len() - i,
        {
            let w = parse_interval(&intervals[i], pattern);
            r.push(w);
            i = i + 1;
        }
        r
    }

    /// The commands that mark the interval `id` as logged: tag it `logged`, then take away the
    /// tags `log` and `logfail`.
    pub fn record_success(&self, id: &str) -> (r: Vec<Vec<String>>)
        ensures
            arg_lists(r@) == seq![
                seq!["tag"@, id@, "logged"@],
                seq!["untag"@, id@, "log"@, "logfail"@],
            ],
    {
        let tag = vec![String::from_str("tag"), String::from_str(id), String::from_str("logged")];
        let untag = vec![
            String::from_str("untag"),
            String::from_str(id),
            String::from_str("log"),
            String::from_str("logfail"),
        ];
        assert(tag@.map_values(|s: String| s@) =~= seq!["tag"@, id@, "logged"@]);
        assert(untag@.map_values(|s: String| s@) =~= seq!["untag"@, id@, "log"@, "logfail"@]);
        let r = vec![tag, untag];
        assert(arg_lists(r@) =~= seq![
            seq!["tag"@, id@, "logged"@],
            seq!["untag"@, id@, "log"@, "logfail"@],
        ]);
        r
    }

    /// The command that marks the interval `id` as failed: tag it `logfail`.
    pub fn record_fail(&self, id: &str) -> (r: Vec<Vec<String>>)
        ensures
            arg_lists(r@) == seq![seq!["tag"@, id@, "logfail"@]],
    {
        let tag = vec![String::from_str("tag"), String::from_str(id), String::from_str("logfail")];
        assert(tag@.map_values(|s: String| s@) =~= seq!["tag"@, id@, "logfail"@]);
        let r = vec![tag];
        assert(arg_lists(r@) =~= seq![seq!["tag"@, id@, "logfail"@]]);
        r
    }
}

} // verus!

verus! {

/// The calendar date in UTC of the instant `utc_secs` seconds after the Unix epoch; `None`
/// outside chrono's range of dates.
pub uninterp spec fn utc_date_of(utc_secs: int) -> Option<Date>;

/// Relies on chrono's DateTime::from_timestamp and DateTime::date_naive: the UTC calendar date
/// of an instant.
#[verifier::external_body]
fn utc_date(utc_secs: i64) -> (r: Option<Date>)
    ensures
        r == utc_date_of(utc_secs as int),
{
    match chrono::DateTime::from_timestamp(utc_secs, 0) {
        Some(t) => {
            let d = t.date_naive();
            Some(Date { year: d.year(), month: d.month(), day: d.day() })
        },
        None => None,
    }
}

/// The length of a closed interval as whole hours and the minutes left over, both rounded
/// toward zero; `"open"` for a running interval.
pub open spec fn interval_span(interval: Interval) -> Seq<char> {
    match interval.end {
        Some(e) => {
            let secs = e - interval.start;
            let h = trunc_div(secs, 3600);
            signed_decimal(h) + seq!['h', ' '] + signed_decimal(trunc_div(secs, 60) - h * 60)
                + seq!['m']
        },
        None => "open"@,
    }
}

/// The one-line summary of an interval, given the UTC date of its end (of its start while it
/// is running).
pub open spec fn interval_line(interval: Interval, date: Option<Date>) -> Seq<char> {
    let date_text = match date {
        Some(d) => iso_date(d),
        None => seq!['?'],
    };
    let annotation = match interval.annotation {
        Some(a) => a@,
        None => seq!['-'],
    };
    pad_right(interval.id@, 5) + seq![' '] + date_text + seq![' '] + pad_right(
        interval_span(interval),
        7,
    ) + seq![' ', '['] + center(join(interval.tags@.map_values(|s: String| s@)), 15) + seq![
        ']',
        ' ',
        '\'',
    ] + annotation + seq!['\'']
}

impl Interval {
    /// The one-line summary of the interval, as `id date duration [tags] 'annotation'`: the
    /// date of its end in UTC (of its start while it is running), its length or `open`, its tags
    /// joined by `", "` and centred in 15 characters, and `-` for a missing annotation.
    pub fn describe(&self) -> (r: String)
        requires
            self.well_formed(),
        ensures
            r@ == interval_line(
                *self,
                utc_date_of(
                    match self.end {
                        Some(e) => e as int,
                        None => self.start as int,
                    },
                ),
            ),
    {
        proof {
            reveal_strlit(" ");
            reveal_strlit("?");
            reveal_strlit("-");
            reveal_strlit("h ");
            reveal_strlit("m");
            reveal_strlit(" [");
            reveal_strlit("] '");
            reveal_strlit("'");
        }
        let instant = match self.end {
            Some(e) => e,
            None => self.start,
        };
        let date = match utc_date(instant) {
            Some(d) => iso_date_text(&d),
            None => String::from_str("?"),
        };
        let span = match self.end {
            Some(e) => {
                let d = Duration::between(self.start, e);
                let h = d.num_hours();
                let m = d.num_minutes();
                proof {
                    let s = d@;
                    assert(-153722867280912931 <= trunc_div(s, 60) <= 153722867280912931)
                        by (nonlinear_arith)
                        requires
                            i64::MIN <= s <= i64::MAX,
                            trunc_div(s, 60) == (if s >= 0 { s / 60 } else { -((-s) / 60) }),
                    ;
                    assert(-2562047788015216 <= trunc_div(s, 3600) <= 2562047788015216)
                        by (nonlinear_arith)
                        requires
                            i64::MIN <= s <= i64::MAX,
                            trunc_div(s, 3600) == (if s >= 0 { s / 3600 } else { -((-s) / 3600) }),
                    ;
                }
                let mut t = signed_decimal_text(h);
                t.append("h ");
                let rest = signed_decimal_text(m - h * 60);
                t.append(rest.as_str());
                t.append("m");
                t
            },
            None => String::from_str("open"),
        };
        assert(span@ =~= interval_span(*self));
        let annotation = match &self.annotation {
            Some(a) => a.clone(),
            None => String::from_str("-"),
        };
        let mut r = pad_right_text(self.id.as_str(), 5);
        r.append(" ");
        r.append(date.as_str());
        r.append(" ");
        let span = pad_right_text(span.as_str(), 7);
        r.append(span.as_str());
        r.append(" [");
        let tags = join_text(&self.tags);
        let tags = center_text(tags.as_str(), 15);
        r.append(tags.as_str());
        r.append("] '");
        r.append(annotation.as_str());
        r.append("'");
        assert(r@ =~= interval_line(
            *self,
            utc_date_of(
                match self.end {
                    Some(e) => e as int,
                    None => self.start as int,
                },
            ),
        ));
        r
    }
}

} // verus!
