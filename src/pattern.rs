//! Regular-expression patterns, held together with the text they were
//! compiled from.

use vstd::prelude::*;

verus! {

#[verifier::external_type_specification]
#[verifier::external_body]
pub struct ExRegex(regex::Regex);

#[verifier::external_type_specification]
#[verifier::external_body]
pub struct ExRegexError(regex::Error);

/// Whether `pattern` is accepted by `regex::Regex::new` under its default
/// size limit.
pub uninterp spec fn regex_compiles(pattern: Seq<char>) -> bool;

/// Whether the regex compiled from `pattern` finds a match anywhere in `text`.
pub uninterp spec fn regex_finds(pattern: Seq<char>, text: Seq<char>) -> bool;

/// Relies on `Regex::clone`: the copy runs the same compiled program.
pub assume_specification[ <regex::Regex as Clone>::clone ](re: &regex::Regex) -> regex::Regex;

/// Relies on `regex::Regex::new`: it succeeds exactly when the pattern is
/// valid and fits the default size limit, which depends on the pattern alone.
#[verifier::external_body]
fn compile_regex(source: &str) -> (r: Result<regex::Regex, regex::Error>)
    ensures
        r is Ok <==> regex_compiles(source@),
{
    regex::Regex::new(source)
}

/// A compiled regular expression together with its source text.
///
/// The compiled program is always the one built from `source`: the only
/// constructor compiles it from there, and a clone copies both.
#[derive(Debug)]
pub struct DeserializedRegex {
    source: String,
    compiled: regex::Regex,
}

impl View for DeserializedRegex {
    type V = Seq<char>;

    /// The pattern's source text.
    closed spec fn view(&self) -> Seq<char> {
        self.source@
    }
}

impl DeserializedRegex {
    /// Compiles `s`; fails with the regex crate's error where `s` is no valid
    /// pattern.
    pub fn new(s: &str) -> (r: Result<DeserializedRegex, regex::Error>)
        ensures
            r is Ok <==> regex_compiles(s@),
            r matches Ok(p) ==> p@ == s@,
    {
        match compile_regex(s) {
            Ok(compiled) => Ok(DeserializedRegex { source: s.to_owned(), compiled }),
            Err(e) => Err(e),
        }
    }

    /// The source text of the pattern.
    pub fn as_str(&self) -> (r: &str)
        ensures
            r@ == self@,
    {
        self.source.as_str()
    }

    /// Whether the pattern finds a match anywhere in `text`; it is not
    /// anchored unless its source says so.
    pub fn is_match(&self, text: &str) -> (r: bool)
        ensures
            r == regex_finds(self@, text@),
    {
        self.finds_in(text)
    }

    /// Relies on `regex::Regex::is_match`: true exactly when the regex finds a
    /// match anywhere in `text`; `compiled` was built from `source`.
    #[verifier::external_body]
    fn finds_in(&self, text: &str) -> (r: bool)
        ensures
            r == regex_finds(self@, text@),
    {
        self.compiled.is_match(text)
    }
}

impl Clone for DeserializedRegex {
    fn clone(&self) -> (r: Self)
        ensures
            r@ == self@,
    {
        DeserializedRegex { source: self.source.clone(), compiled: self.compiled.clone() }
    }
}

} // verus!
