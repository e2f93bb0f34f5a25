use vstd::prelude::*;

verus! {

#[verifier::external_type_specification]
#[verifier::external_body]
pub struct ExRegex(regex::Regex);

/// Whether `pattern` is a regular expression that the regex crate accepts.
pub uninterp spec fn regex_compiles(pattern: Seq<char>) -> bool;

/// Whether the regular expression `pattern` matches somewhere in `text`.
pub uninterp spec fn regex_matches(pattern: Seq<char>, text: Seq<char>) -> bool;

/// The upper-case form of `s`, as Unicode defines it.
pub uninterp spec fn upper_of(s: Seq<char>) -> Seq<char>;

/// A compiled regular expression that tells which tag names an issue.
pub struct IssuePattern {
    source: String,
    re: regex::Regex,
}

impl View for IssuePattern {
    type V = Seq<char>;

    /// The text of the expression.
    closed spec fn view(&self) -> Seq<char> {
        self.source@
    }
}

/// Relies on regex::Regex::new: it accepts or refuses a pattern by its text alone.
#[verifier::external_body]
fn compile(pattern: &str) -> (r: Option<IssuePattern>)
    ensures
        r is Some <==> regex_compiles(pattern@),
        r matches Some(p) ==> p@ == pattern@,
{
    match regex::Regex::new(pattern) {
        Ok(re) => Some(IssuePattern { source: pattern.to_string(), re }),
        Err(_) => None,
    }
}

/// Relies on regex::Regex::is_match: whether the expression matches somewhere in `text`.
#[verifier::external_body]
fn search(pattern: &IssuePattern, text: &str) -> (r: bool)
    ensures
        r == regex_matches(pattern@, text@),
{
    pattern.re.is_match(text)
}

/// Relies on str::to_uppercase: the upper-case form depends on the characters alone.
#[verifier::external_body]
pub(crate) fn uppercase(s: &str) -> (r: String)
    ensures
        r@ == upper_of(s@),
{
    s.to_uppercase()
}

impl IssuePattern {
    /// Compiles `pattern`; `None` where it is not a valid regular expression.
    pub fn new(pattern: &str) -> (r: Option<IssuePattern>)
        ensures
            r is Some <==> regex_compiles(pattern@),
            r matches Some(p) ==> p@ == pattern@,
    {
        compile(pattern)
    }

    /// Whether the expression matches somewhere in `text`.
    pub fn is_match(&self, text: &str) -> (r: bool)
        ensures
            r == regex_matches(self@, text@),
    {
        search(self, text)
    }
}

} // verus!
