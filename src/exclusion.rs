//! Rules that keep a completed request out of the duration and size
//! observations: an exact label set, a set of patterns, a set of status codes.

use regex::RegexSet;
use vstd::prelude::*;

use crate::route::contains_name;

verus! {

#[verifier::external_type_specification]
#[verifier::external_body]
pub struct ExRegexSet(regex::RegexSet);

#[verifier::external_type_specification]
#[verifier::external_body]
pub struct ExRegexError(regex::Error);

/// The patterns that a compiled set holds, in the order they were given.
pub uninterp spec fn regex_set_patterns(set: regex::RegexSet) -> Seq<Seq<char>>;

/// Whether every pattern of the list compiles, within the default size limits.
pub uninterp spec fn patterns_compile(patterns: Seq<Seq<char>>) -> bool;

/// Whether some pattern of the list matches somewhere in `text`.
pub uninterp spec fn patterns_match(patterns: Seq<Seq<char>>, text: Seq<char>) -> bool;

/// Relies on `regex::RegexSet::new`: it compiles all patterns into one set, or
/// fails when one of them is invalid; the set keeps the patterns as given.
#[verifier::external_body]
fn compile_patterns(patterns: &Vec<String>) -> (r: Result<RegexSet, regex::Error>)
    ensures
        r is Ok <==> patterns_compile(patterns.deep_view()),
        r is Ok ==> regex_set_patterns(r->Ok_0) == patterns.deep_view(),
{
    RegexSet::new(patterns)
}

/// Relies on `regex::RegexSet::is_match`: whether one of the set's patterns
/// matches somewhere in the text; a set of no patterns matches nothing.
#[verifier::external_body]
fn set_is_match(set: &RegexSet, text: &str) -> (r: bool)
    ensures
        r == patterns_match(regex_set_patterns(*set), text@),
        regex_set_patterns(*set).len() == 0 ==> !r,
{
    set.is_match(text)
}

/// A pattern list that does not compile.
#[derive(Debug, Clone, Copy, PartialEq, Eq)]
pub enum InvalidExcludePattern {
    Invalid,
}

/// The exclusion rules as mathematical values.
pub struct Exclusions {
    pub exact: Seq<Seq<char>>,
    pub patterns: Seq<Seq<char>>,
    pub statuses: Seq<u16>,
}

/// Whether a request with this final label and status is kept out of the
/// observations: its label is in the exact set, or some pattern matches it, or
/// its status is in the status set.
pub open spec fn excluded(rules: Exclusions, label: Seq<char>, status: u16) -> bool {
    rules.exact.contains(label) || patterns_match(rules.patterns, label) || rules.statuses.contains(status)
}

/// Compiled exclusion rules, shared read-only by all requests.
pub struct ExclusionRules {
    exact: Vec<String>,
    patterns: RegexSet,
    statuses: Vec<u16>,
}

impl View for ExclusionRules {
    type V = Exclusions;

    closed spec fn view(&self) -> Exclusions {
        Exclusions {
            exact: self.exact.deep_view(),
            patterns: regex_set_patterns(self.patterns),
            statuses: self.statuses@,
        }
    }
}

/// Whether `codes` holds `code`.
fn contains_status(codes: &Vec<u16>, code: u16) -> (r: bool)
    ensures
        r == codes@.contains(code),
{
    let mut i: usize = 0;
    while i < codes.len()
        invariant
            i <= codes.len(),
            forall|j: int| 0 <= j < i ==> codes@[j] != code,
        decreases codes.len() - i,
    {
        if codes[i] == code {
            assert(codes@[i as int] == code);
            return true;
        }
        i = i + 1;
    }
    false
}

impl ExclusionRules {
    /// Compiles the rules: exact labels, patterns, status codes. Fails exactly
    /// when the patterns do not compile.
    pub fn new(exact: Vec<String>, patterns: &Vec<String>, statuses: Vec<u16>) -> (r: Result<
        Self,
        InvalidExcludePattern,
    >)
        ensures
            r is Ok <==> patterns_compile(patterns.deep_view()),
            r is Ok ==> r->Ok_0@ == (Exclusions {
                exact: exact.deep_view(),
                patterns: patterns.deep_view(),
                statuses: statuses@,
            }),
    {
        match compile_patterns(patterns) {
            Ok(set) => Ok(ExclusionRules { exact, patterns: set, statuses }),
            Err(_) => Err(InvalidExcludePattern::Invalid),
        }
    }

    /// Whether the observations of a request with this final label and status
    /// are recorded: exactly when the rules do not exclude it.
    pub fn should_record(&self, label: &String, status: u16) -> (r: bool)
        ensures
            r == !excluded(self@, label@, status),
    {
        if contains_name(&self.exact, label) {
            return false;
        }
        if set_is_match(&self.patterns, label.as_str()) {
            return false;
        }
        !contains_status(&self.statuses, status)
    }
}

} // verus!
