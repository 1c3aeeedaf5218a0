use vstd::prelude::*;
use vstd::string::*;

use parse_size::Error as SizeTextError;

use crate::error::ParseError;
use crate::numeral::{count_digits, digit_count};

verus! {

/// Byte count that a size text such as `512`, `1M` or `1MiB` denotes, if any.
pub uninterp spec fn size_text_value(s: Seq<char>) -> Option<u64>;

#[verifier::external_type_specification]
#[verifier::external_body]
pub struct ExSizeError(SizeTextError);

/// Most digits a size text may hold. With more, the parser's rounding of a
/// mantissa that has reached `u64::MAX` can overflow, so longer texts are
/// refused before they reach it.
pub const MAX_SIZE_DIGITS: usize = 19;

/// Byte count a size text denotes, for a text of at most `MAX_SIZE_DIGITS`
/// digits; `None` for any other text.
pub open spec fn size_of_text(s: Seq<char>) -> Option<u64> {
    if digit_count(s) <= MAX_SIZE_DIGITS {
        size_text_value(s)
    } else {
        None
    }
}

/// Relies on `parse_size::parse_size`: the byte count a size text denotes
/// (decimal units base 1000, binary units base 1024) depends on the text
/// alone, and the call fails exactly when the text denotes none. Its
/// mantissa cannot reach `u64::MAX` with at most 19 digits, so it does not
/// panic there.
#[verifier::external_body]
fn read_byte_count(s: &str) -> (r: Result<u64, SizeTextError>)
    requires
        digit_count(s@) <= MAX_SIZE_DIGITS,
    ensures
        match r {
            Ok(n) => size_text_value(s@) == Some(n),
            Err(_) => size_text_value(s@) is None,
        },
{
    parse_size::parse_size(s)
}

/// A test on the size of an entry, in bytes.
#[derive(Clone, Copy, Debug, PartialEq, Eq, Structural)]
pub enum SizeFilter {
    Less(u64),
    Greater(u64),
    Equal(u64),
}

/// Reads a size text, refusing one with too many digits.
fn byte_count(s: &str) -> (r: Option<u64>)
    ensures
        r == size_of_text(s@),
{
    if count_digits(s) > MAX_SIZE_DIGITS {
        return None;
    }
    match read_byte_count(s) {
        Ok(v) => Some(v),
        Err(_) => None,
    }
}

impl SizeFilter {
    /// Whether an entry of `size` bytes passes; every comparison is strict.
    pub open spec fn accepts(self, size: u64) -> bool {
        match self {
            SizeFilter::Equal(u) => size == u,
            SizeFilter::Less(u) => size < u,
            SizeFilter::Greater(u) => size > u,
        }
    }

    /// The filter a token denotes: `-` then a size for `Less`, `+` then a
    /// size for `Greater`, a bare size for `Equal`; a size is a number of at
    /// most `MAX_SIZE_DIGITS` digits with an optional unit.
    pub open spec fn parsed(s: Seq<char>) -> Option<SizeFilter> {
        if s.len() > 0 && s[0] == '-' {
            match size_of_text(s.drop_first()) {
                Some(n) => Some(SizeFilter::Less(n)),
                None => None,
            }
        } else if s.len() > 0 && s[0] == '+' {
            match size_of_text(s.drop_first()) {
                Some(n) => Some(SizeFilter::Greater(n)),
                None => None,
            }
        } else {
            match size_of_text(s) {
                Some(n) => Some(SizeFilter::Equal(n)),
                None => None,
            }
        }
    }

    pub fn matches(&self, size: u64) -> (r: bool)
        ensures
            r == self.accepts(size),
    {
        match self {
            SizeFilter::Equal(u) => size == *u,
            SizeFilter::Less(u) => size < *u,
            SizeFilter::Greater(u) => size > *u,
        }
    }

    /// Reads a size token (`8`, `+0`, `-1M`, `1MiB`).
    pub fn parse(s: &str) -> (r: Result<SizeFilter, ParseError>)
        ensures
            r == match SizeFilter::parsed(s@) {
                Some(f) => Ok(f),
                None => Err(ParseError::InvalidSize),
            },
    {
        let n = s.unicode_len();
        if n > 0 && s.get_char(0) == '-' {
            let rest = s.substring_char(1, n);
            assert(rest@ == s@.drop_first());
            match byte_count(rest) {
                Some(v) => Ok(SizeFilter::Less(v)),
                None => Err(ParseError::InvalidSize),
            }
        } else if n > 0 && s.get_char(0) == '+' {
            let rest = s.substring_char(1, n);
            assert(rest@ == s@.drop_first());
            match byte_count(rest) {
                Some(v) => Ok(SizeFilter::Greater(v)),
                None => Err(ParseError::InvalidSize),
            }
        } else {
            match byte_count(s) {
                Some(v) => Ok(SizeFilter::Equal(v)),
                None => Err(ParseError::InvalidSize),
            }
        }
    }
}

impl std::str::FromStr for SizeFilter {
    type Err = ParseError;

    fn from_str(s: &str) -> (r: Result<SizeFilter, ParseError>)
        ensures
            r == match SizeFilter::parsed(s@) {
                Some(f) => Ok(f),
                None => Err(ParseError::InvalidSize),
            },
    {
        SizeFilter::parse(s)
    }
}

} // verus!
