//! Name matching for the `allowWithName` option: a user-supplied regular
//! expression, compiled once per rule run and tested against declared
//! identifiers with search (partial-match) semantics. Compilation and
//! matching are done by the regex crate.

use vstd::prelude::*;

verus! {

#[verifier::external_type_specification]
#[verifier::external_body]
pub struct ExRegex(regex::Regex);

/// The pattern source a compiled `regex::Regex` was built from and holds
/// (what `regex::Regex::as_str` hands back).
pub uninterp spec fn regex_pattern(re: regex::Regex) -> Seq<char>;

/// Whether the regular expression compiled from `pattern` matches anywhere
/// within `text` (search semantics: anchors behave as ordinary anchors, so
/// the pattern need not cover the whole text).
pub uninterp spec fn regex_search(pattern: Seq<char>, text: Seq<char>) -> bool;

/// Whether `pattern` is a regular-expression source that compiles under
/// default settings: whether `regex::Regex::new` accepts it. Acceptance
/// depends on the source alone.
pub uninterp spec fn regex_compiles(pattern: Seq<char>) -> bool;

/// Relies on regex::Regex::new: compiles the pattern source, succeeding
/// exactly on the sources the engine accepts; the compiled regex is
/// determined by its source.
#[verifier::external_body]
fn regex_new(pattern: &str) -> (compiled: Option<regex::Regex>)
    ensures
        compiled is Some <==> regex_compiles(pattern@),
        compiled matches Some(re) ==> regex_pattern(re) == pattern@,
{
    regex::Regex::new(pattern).ok()
}

/// Relies on regex::Regex::is_match: true iff there is a match for the
/// regex anywhere in the haystack; the result depends on the pattern source
/// and the haystack alone. Meant for regexes built with default settings,
/// as `regex_new` builds every regex of this library: a regex built with
/// other flags would not behave as a function of its source alone.
#[verifier::external_body]
fn regex_is_match(re: &regex::Regex, text: &str) -> (found: bool)
    ensures
        found == regex_search(regex_pattern(*re), text@),
{
    re.is_match(text)
}

/// A compiled name-matching pattern.
#[derive(Debug)]
pub struct NamePattern {
    re: regex::Regex,
}

impl NamePattern {
    /// The regular-expression source this pattern was compiled from.
    pub closed spec fn source(self) -> Seq<char> {
        regex_pattern(self.re)
    }

    /// Compiles a name-matching pattern: succeeds exactly on the sources
    /// the engine accepts, and returns `None` for an invalid
    /// regular-expression source.
    pub fn compile(source: &str) -> (pattern: Option<NamePattern>)
        ensures
            pattern is Some <==> regex_compiles(source@),
            pattern matches Some(p) ==> p.source() == source@,
    {
        match regex_new(source) {
            Some(re) => Some(NamePattern { re }),
            None => None,
        }
    }

    /// True iff the pattern matches anywhere within `name`.
    pub fn is_match(&self, name: &str) -> (found: bool)
        ensures
            found == regex_search(self.source(), name@),
    {
        regex_is_match(&self.re, name)
    }
}

} // verus!
