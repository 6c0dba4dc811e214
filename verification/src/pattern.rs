//! Regular expressions, compiled by the `regex` crate.
use vstd::prelude::*;
use regex::Error as RegexError;

verus! {

#[verifier::external_type_specification]
#[verifier::external_body]
pub struct ExRegex(regex::Regex);

#[verifier::external_type_specification]
#[verifier::external_body]
pub struct ExRegexError(RegexError);

/// Whether `regex::Regex::new` accepts the pattern.
pub uninterp spec fn regex_compiles(pattern: Seq<char>) -> bool;

/// The text of the leftmost-first match of the pattern in the haystack, as
/// `regex::Regex::find` reports it, or `None` when there is no match.
pub uninterp spec fn regex_first_match(pattern: Seq<char>, haystack: Seq<char>) -> Option<Seq<char>>;

/// `regex::Regex::new`. Claimed: it succeeds exactly on the patterns that
/// `regex_compiles` names; which patterns those are (syntax and the default
/// size limit) is left to the crate.
#[verifier::external_body]
fn compile(pattern: &str) -> (r: Result<regex::Regex, RegexError>)
    ensures
        r is Ok <==> regex_compiles(pattern@),
{
    regex::Regex::new(pattern)
}

/// A compiled regular expression together with the pattern it was compiled from.
pub struct Pattern {
    regex: regex::Regex,
    source: Ghost<Seq<char>>,
}

impl View for Pattern {
    type V = Seq<char>;

    /// The pattern the expression was compiled from.
    closed spec fn view(&self) -> Seq<char> {
        self.source@
    }
}

impl Pattern {
    /// Compiles `source`; fails with the crate's error exactly when the crate refuses it.
    pub fn new(source: &str) -> (r: Result<Pattern, RegexError>)
        ensures
            r is Ok <==> regex_compiles(source@),
            r matches Ok(p) ==> p@ == source@,
    {
        match compile(source) {
            Ok(regex) => Ok(Pattern { regex, source: Ghost(source@) }),
            Err(e) => Err(e),
        }
    }
}

/// `regex::Regex::find` followed by `Match::as_str`: the text of the first
/// match. Claimed: the result is `regex_first_match` of the pattern the
/// expression was compiled from (which `Pattern::new` records) and the
/// haystack; the matching semantics itself is left to the crate.
#[verifier::external_body]
pub(crate) fn first_match(p: &Pattern, haystack: &str) -> (r: Option<String>)
    ensures
        match r {
            Some(m) => regex_first_match(p@, haystack@) == Some(m@),
            None => regex_first_match(p@, haystack@) is None,
        },
{
    match p.regex.find(haystack) {
        Some(m) => Some(m.as_str().to_string()),
        None => None,
    }
}

} // verus!
