use vstd::prelude::*;

use regex::Error as RegexError;

use crate::error::ParseError;

verus! {

/// Whether `regex::Regex::new` accepts the text as a regular expression.
pub uninterp spec fn regex_accepts(source: Seq<char>) -> bool;

/// Whether the regular expression compiled from `source` matches somewhere
/// in `text`.
pub uninterp spec fn regex_finds(source: Seq<char>, text: Seq<char>) -> bool;

#[verifier::external_type_specification]
#[verifier::external_body]
pub struct ExRegex(regex::Regex);

#[verifier::external_type_specification]
#[verifier::external_body]
pub struct ExRegexError(RegexError);

/// Relies on `regex::Regex::new`: whether a text compiles depends on the
/// text alone.
#[verifier::external_body]
fn compile(source: &str) -> (r: Result<regex::Regex, RegexError>)
    ensures
        r is Ok == regex_accepts(source@),
{
    regex::Regex::new(source)
}

/// A regular expression over entry paths, with the text it was compiled
/// from. The two fields are only ever set together, by `new`.
pub struct Pattern {
    source: String,
    regex: regex::Regex,
}

/// Relies on `regex::Regex::is_match`: whether the expression compiled from
/// the pattern's source matches somewhere in the text depends on those two
/// texts alone.
#[verifier::external_body]
fn find_in(p: &Pattern, text: &str) -> (r: bool)
    ensures
        r == regex_finds(p@, text@),
{
    p.regex.is_match(text)
}

impl View for Pattern {
    type V = Seq<char>;

    /// The text the expression was compiled from.
    closed spec fn view(&self) -> Seq<char> {
        self.source@
    }
}

impl Pattern {
    /// Compiles a regular expression.
    pub fn new(source: &str) -> (r: Result<Pattern, ParseError>)
        ensures
            r is Ok == regex_accepts(source@),
            r matches Ok(p) ==> p@ == source@,
            r matches Err(e) ==> e == ParseError::InvalidPattern,
    {
        match compile(source) {
            Ok(regex) => Ok(Pattern { source: source.to_owned(), regex }),
            Err(_) => Err(ParseError::InvalidPattern),
        }
    }

    /// Whether the expression matches somewhere in `text`.
    pub fn is_match(&self, text: &str) -> (r: bool)
        ensures
            r == regex_finds(self@, text@),
    {
        find_in(self, text)
    }

    /// The text the expression was compiled from.
    pub fn as_str(&self) -> (r: &str)
        ensures
            r@ == self@,
    {
        self.source.as_str()
    }
}

} // verus!
