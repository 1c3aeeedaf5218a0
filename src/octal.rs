use vstd::prelude::*;
use vstd::string::*;

use crate::error::ParseError;
use crate::numeral::{parse_u32_radix, unsigned_numeral};

verus! {

/// Low nine permission bits of a mode word.
pub const PERMISSION_BITS: u32 = 0o777;

/// A test on the permission bits of an entry's mode.
#[derive(Clone, Copy, Debug, PartialEq, Eq, Structural)]
pub enum OctalFilter {
    /// Every bit of the mask is set in the mode.
    Contains(u32),
    /// The low nine bits of the mode are exactly the mask.
    Equal(u32),
    /// No bit of the mask is set in the mode.
    NotContains(u32),
}

impl OctalFilter {
    /// Whether `mode` passes the filter. Only `Equal` drops the bits above
    /// the nine permission bits; the other two test the raw mode word.
    pub open spec fn accepts(self, mode: u32) -> bool {
        match self {
            OctalFilter::Contains(m) => m == mode & m,
            OctalFilter::Equal(m) => m == mode & PERMISSION_BITS,
            OctalFilter::NotContains(m) => mode & m == 0,
        }
    }

    /// The filter that a token denotes: `+` then an octal mask for `Contains`,
    /// `~` then a mask for `NotContains`, a bare mask for `Equal`.
    pub open spec fn parsed(s: Seq<char>) -> Option<OctalFilter> {
        if s.len() > 0 && s[0] == '+' {
            match unsigned_numeral(s.drop_first(), 8) {
                Some(m) => Some(OctalFilter::Contains(m)),
                None => None,
            }
        } else if s.len() > 0 && s[0] == '~' {
            match unsigned_numeral(s.drop_first(), 8) {
                Some(m) => Some(OctalFilter::NotContains(m)),
                None => None,
            }
        } else {
            match unsigned_numeral(s, 8) {
                Some(m) => Some(OctalFilter::Equal(m)),
                None => None,
            }
        }
    }

    pub fn matches(&self, o: u32) -> (r: bool)
        ensures
            r == self.accepts(o),
    {
        match self {
            OctalFilter::Contains(m) => *m == (o & *m),
            OctalFilter::Equal(m) => *m == (o & PERMISSION_BITS),
            OctalFilter::NotContains(m) => 0 == (o & *m),
        }
    }

    /// Reads a mode token (`0644`, `+0440`, `~0006`).
    pub fn parse(s: &str) -> (r: Result<OctalFilter, ParseError>)
        ensures
            r == match OctalFilter::parsed(s@) {
                Some(f) => Ok(f),
                None => Err(ParseError::InvalidMode),
            },
    {
        let n = s.unicode_len();
        if n > 0 && s.get_char(0) == '+' {
            match parse_u32_radix(s.substring_char(1, n), 8) {
                Some(m) => Ok(OctalFilter::Contains(m)),
                None => Err(ParseError::InvalidMode),
            }
        } else if n > 0 && s.get_char(0) == '~' {
            match parse_u32_radix(s.substring_char(1, n), 8) {
                Some(m) => Ok(OctalFilter::NotContains(m)),
                None => Err(ParseError::InvalidMode),
            }
        } else {
            match parse_u32_radix(s, 8) {
                Some(m) => Ok(OctalFilter::Equal(m)),
                None => Err(ParseError::InvalidMode),
            }
        }
    }
}

impl std::str::FromStr for OctalFilter {
    type Err = ParseError;

    fn from_str(s: &str) -> (r: Result<OctalFilter, ParseError>)
        ensures
            r == match OctalFilter::parsed(s@) {
                Some(f) => Ok(f),
                None => Err(ParseError::InvalidMode),
            },
    {
        OctalFilter::parse(s)
    }
}

} // verus!
