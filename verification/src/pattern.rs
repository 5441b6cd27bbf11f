//! A compiled name filter. Compilation and matching are done by the regex
//! crate; the library speaks of them through two named results:
//! `pattern_valid`, whether a pattern string compiles, and `regex_matches`,
//! whether a compiled pattern matches a given text anywhere inside it.

use vstd::prelude::*;

verus! {

#[verifier::external_type_specification]
#[verifier::external_body]
pub struct ExRegex(regex::Regex);

/// Whether `regex::Regex::new` accepts the pattern: the pattern is valid
/// regex syntax and compiles within the crate's default size limit. The
/// outcome depends on the pattern string alone.
pub uninterp spec fn pattern_valid(pattern: Seq<char>) -> bool;

/// Whether `regex::Regex::is_match` reports a match of the pattern anywhere
/// in the text. The outcome depends on the pattern and the text alone.
pub uninterp spec fn regex_matches(pattern: Seq<char>, text: Seq<char>) -> bool;

/// A pattern that compiled, kept together with the string it was compiled
/// from, so that contracts can speak of the match outcome as a function of
/// that string.
pub struct CompiledPattern {
    regex: regex::Regex,
    source: String,
}

impl CompiledPattern {
    /// The pattern string this filter was compiled from.
    pub closed spec fn src(self) -> Seq<char> {
        self.source@
    }

    /// Relies on regex::Regex::new: compilation succeeds exactly on valid
    /// patterns, and the outcome depends on the pattern string alone.
    #[verifier::external_body]
    fn compile(pattern: &String) -> (r: Option<CompiledPattern>)
        ensures
            r is Some <==> pattern_valid(pattern@),
            r matches Some(p) ==> p.src() == pattern@,
    {
        match regex::Regex::new(pattern) {
            Ok(re) => Some(CompiledPattern { regex: re, source: pattern.clone() }),
            Err(_) => None,
        }
    }

    /// Relies on regex::Regex::is_match: true exactly when the pattern
    /// matches somewhere in the text, as a function of pattern and text.
    #[verifier::external_body]
    fn matches(&self, text: &String) -> (r: bool)
        ensures
            r == regex_matches(self.src(), text@),
    {
        self.regex.is_match(text)
    }

    /// Compile a pattern string, or report that it is not valid regex syntax.
    pub fn new(pattern: &String) -> (r: Option<CompiledPattern>)
        ensures
            r is Some <==> pattern_valid(pattern@),
            r matches Some(p) ==> p.src() == pattern@,
    {
        CompiledPattern::compile(pattern)
    }

    /// Whether this pattern matches anywhere in `text`.
    pub fn is_match(&self, text: &String) -> (r: bool)
        ensures
            r == regex_matches(self.src(), text@),
    {
        self.matches(text)
    }
}

} // verus!
