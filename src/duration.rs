use vstd::prelude::*;

use crate::text::{decimal, is_digit, lemma_decimal_digits, signed_decimal, signed_decimal_text};

verus! {

/// An elapsed time, signed, counted in whole seconds.
#[derive(Clone, Copy, Debug, PartialEq, Eq, Structural)]
pub struct Duration {
    secs: i64,
}

impl View for Duration {
    type V = int;

    /// The length in seconds.
    closed spec fn view(&self) -> int {
        self.secs as int
    }
}

/// `a / b` rounded toward zero.
pub open spec fn trunc_div(a: int, b: int) -> int {
    if a >= 0 {
        a / b
    } else {
        -((-a) / b)
    }
}

/// `a / b` rounded to the nearest integer, halves away from zero.
pub open spec fn round_div(a: int, b: int) -> int {
    if a >= 0 {
        (a + b / 2) / b
    } else {
        -(((-a) + b / 2) / b)
    }
}

/// The whole hours of a duration of `secs` seconds.
pub open spec fn jira_hours(secs: int) -> int {
    trunc_div(secs, 3600)
}

/// The minutes shown beside the hours: the duration rounded to the nearest minute, less the
/// whole hours; `1` where both would be zero.
pub open spec fn jira_minutes(secs: int) -> int {
    let minutes = round_div(secs, 60) - 60 * jira_hours(secs);
    if jira_hours(secs) == 0 && minutes == 0 {
        1
    } else {
        minutes
    }
}

/// The `"Xh Ym"` text of a duration of `secs` seconds.
pub open spec fn jira_text(secs: int) -> Seq<char> {
    signed_decimal(jira_hours(secs)) + seq!['h', ' '] + signed_decimal(jira_minutes(secs)) + seq![
        'm',
    ]
}

/// One or more decimal digits.
pub open spec fn is_digits(s: Seq<char>) -> bool {
    s.len() >= 1 && forall|i: int| 0 <= i < s.len() ==> is_digit(#[trigger] s[i])
}

impl Duration {
    /// A duration of `secs` seconds.
    pub fn seconds(secs: i64) -> (r: Duration)
        ensures
            r@ == secs,
    {
        Duration { secs }
    }

    /// A duration of `minutes` minutes.
    pub fn minutes(minutes: i64) -> (r: Duration)
        requires
            i64::MIN <= minutes * 60 <= i64::MAX,
        ensures
            r@ == minutes * 60,
    {
        Duration { secs: minutes * 60 }
    }

    /// A duration of `hours` hours.
    pub fn hours(hours: i64) -> (r: Duration)
        requires
            i64::MIN <= hours * 3600 <= i64::MAX,
        ensures
            r@ == hours * 3600,
    {
        Duration { secs: hours * 3600 }
    }

    /// The time from the instant `start` to the instant `end`, both in seconds.
    pub fn between(start: i64, end: i64) -> (r: Duration)
        requires
            i64::MIN <= end - start <= i64::MAX,
        ensures
            r@ == end - start,
    {
        Duration { secs: end - start }
    }

    /// The sum of two durations.
    pub fn plus(&self, other: &Duration) -> (r: Duration)
        requires
            i64::MIN <= self@ + other@ <= i64::MAX,
        ensures
            r@ == self@ + other@,
    {
        Duration { secs: self.secs + other.secs }
    }

    /// The length in whole seconds.
    pub fn num_seconds(&self) -> (r: i64)
        ensures
            r == self@,
    {
        self.secs
    }

    /// The whole hours, rounded toward zero.
    pub fn num_hours(&self) -> (r: i64)
        ensures
            r == trunc_div(self@, 3600),
    {
        if self.secs >= 0 {
            self.secs / 3600
        } else {
            let magnitude: u64 = ((-(self.secs + 1)) as u64) + 1;
            -((magnitude / 3600) as i64)
        }
    }

    /// The whole minutes, rounded toward zero.
    pub fn num_minutes(&self) -> (r: i64)
        ensures
            r == trunc_div(self@, 60),
    {
        if self.secs >= 0 {
            self.secs / 60
        } else {
            let magnitude: u64 = ((-(self.secs + 1)) as u64) + 1;
            -((magnitude / 60) as i64)
        }
    }

    /// The length rounded to the nearest minute, halves away from zero.
    pub fn rounded_minutes(&self) -> (r: i64)
        ensures
            r == round_div(self@, 60),
    {
        if self.secs >= 0 {
            let up: i64 = if self.secs % 60 >= 30 { 1 } else { 0 };
            proof {
                let s = self.secs as int;
                assert((s + 30) / 60 == s / 60 + (if s % 60 >= 30 { 1int } else { 0 }))
                    by (nonlinear_arith)
                    requires s >= 0;
            }
            self.secs / 60 + up
        } else {
            let magnitude: u64 = ((-(self.secs + 1)) as u64) + 1;
            let up: u64 = if magnitude % 60 >= 30 { 1 } else { 0 };
            proof {
                let a = magnitude as int;
                assert((a + 30) / 60 == a / 60 + (if a % 60 >= 30 { 1int } else { 0 }))
                    by (nonlinear_arith)
                    requires a >= 0;
            }
            -((magnitude / 60 + up) as i64)
        }
    }
}

/// Writes a duration as `"Xh Ym"`: the whole hours, then the minutes left once the duration is
/// rounded to the nearest minute. A duration that would read `0h 0m` reads `0h 1m`, since a
/// zero-length worklog is refused.
pub fn duration_to_jira(duration: &Duration) -> (r: String)
    ensures
        r@ == jira_text(duration@),
{
    let hours = duration.num_hours();
    let rounded = duration.rounded_minutes();
    proof {
        let s = duration@;
        assert(-153722867280912930 <= round_div(s, 60) <= 153722867280912931) by (nonlinear_arith)
            requires
                i64::MIN <= s <= i64::MAX,
                round_div(s, 60) == (if s >= 0 { (s + 30) / 60 } else { -(((-s) + 30) / 60) }),
        ;
        assert(-2562047788015216 <= trunc_div(s, 3600) <= 2562047788015216) by (nonlinear_arith)
            requires
                i64::MIN <= s <= i64::MAX,
                trunc_div(s, 3600) == (if s >= 0 { s / 3600 } else { -((-s) / 3600) }),
        ;
    }
    let minutes = rounded - hours * 60;
    let shown = if hours == 0 && minutes == 0 {
        1
    } else {
        minutes
    };
    let mut r = signed_decimal_text(hours);
    proof {
        reveal_strlit("h ");
        reveal_strlit("m");
    }
    r.append("h ");
    let m = signed_decimal_text(shown);
    r.append(m.as_str());
    r.append("m");
    assert(r@ =~= jira_text(duration@));
    r
}

/// For a duration that is not negative, the text is digits, `"h "`, digits, `"m"`, and the
/// minutes are never negative.
pub proof fn lemma_jira_text_shape(secs: int)
    requires
        secs >= 0,
    ensures
        jira_minutes(secs) >= 0,
        exists|h: Seq<char>, m: Seq<char>|
            is_digits(h) && is_digits(m) && jira_text(secs) == h + seq!['h', ' '] + m + seq!['m'],
{
    let h = jira_hours(secs);
    assert(h == secs / 3600);
    assert(round_div(secs, 60) == (secs + 30) / 60);
    assert(60 * (secs / 3600) <= (secs + 30) / 60) by (nonlinear_arith)
        requires
            secs >= 0,
    ;
    assert(h >= 0) by (nonlinear_arith)
        requires
            secs >= 0,
            h == secs / 3600,
    ;
    let hd = decimal(h as nat);
    let md = decimal(jira_minutes(secs) as nat);
    lemma_decimal_digits(h as nat);
    lemma_decimal_digits(jira_minutes(secs) as nat);
    assert(jira_text(secs) == hd + seq!['h', ' '] + md + seq!['m']);
}

/// A duration that rounds to zero minutes reads `"0h 1m"`.
pub proof fn lemma_zero_minutes_floor(secs: int)
    requires
        round_div(secs, 60) == 0,
    ensures
        jira_hours(secs) == 0,
        jira_minutes(secs) == 1,
        jira_text(secs) == seq!['0', 'h', ' ', '1', 'm'],
{
    assert(-30 < secs < 30) by (nonlinear_arith)
        requires
            round_div(secs, 60) == (if secs >= 0 { (secs + 30) / 60 } else { -(((-secs) + 30) / 60) }),
            round_div(secs, 60) == 0,
    ;
    assert(jira_hours(secs) == 0);
    assert(decimal(0) == seq!['0']);
    assert(decimal(1) == seq!['1']);
    assert(jira_text(secs) =~= seq!['0', 'h', ' ', '1', 'm']);
}

} // verus!
