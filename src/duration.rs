use vstd::prelude::*;
use vstd::string::*;

use crate::error::{EntryError, ParseError};
use crate::numeral::{count_digits, digit_count};

verus! {

/// Seconds and nanoseconds, whether since the epoch or between two instants.
#[derive(Clone, Copy, Debug, PartialEq, Eq, Structural)]
pub struct Span {
    pub secs: u64,
    pub nanos: u32,
}

/// Nanoseconds in one second.
pub const NANOS_PER_SEC: u128 = 1_000_000_000;

impl Span {
    /// The span in nanoseconds.
    pub open spec fn total(self) -> int {
        self.secs * NANOS_PER_SEC + self.nanos
    }

    pub fn from_secs(secs: u64) -> (r: Span)
        ensures
            r.secs == secs,
            r.nanos == 0,
    {
        Span { secs, nanos: 0 }
    }

    pub fn as_nanos(&self) -> (r: u128)
        ensures
            r == self.total(),
    {
        assert(self.secs * NANOS_PER_SEC <= u64::MAX * NANOS_PER_SEC) by (nonlinear_arith);
        self.secs as u128 * NANOS_PER_SEC + self.nanos as u128
    }
}

/// Span, as `(seconds, nanoseconds)`, that a duration text such as `1d` or
/// `3h 5m` denotes, if any.
pub uninterp spec fn duration_text_value(s: Seq<char>) -> Option<(u64, u32)>;

#[verifier::external_type_specification]
#[verifier::external_body]
pub struct ExDurationError(humantime::DurationError);

/// Most digits a duration text may hold. A text with more could add up to
/// `u64::MAX` seconds, where the parser's last carry of nanoseconds
/// overflows, so longer texts are refused before they reach it. With at most
/// 11 digits the numbers of a text sum to under 1e11, which in years stays
/// far below that.
pub const MAX_DURATION_DIGITS: usize = 11;

/// Span a duration text denotes, as `(seconds, nanoseconds)`, for a text of
/// at most `MAX_DURATION_DIGITS` digits; `None` for any other text.
pub open spec fn span_of_text(s: Seq<char>) -> Option<(u64, u32)> {
    if digit_count(s) <= MAX_DURATION_DIGITS {
        duration_text_value(s)
    } else {
        None
    }
}

/// Relies on `humantime::parse_duration`: the span a duration text denotes
/// depends on the text alone, and the call fails exactly when it denotes none.
/// Its numbers are made of the text's ASCII digits, so with at most 11 of them
/// the seconds never reach `u64::MAX` and the call does not panic.
#[verifier::external_body]
fn read_span(s: &str) -> (r: Result<Span, humantime::DurationError>)
    requires
        digit_count(s@) <= MAX_DURATION_DIGITS,
    ensures
        match r {
            Ok(d) => duration_text_value(s@) == Some((d.secs, d.nanos)),
            Err(_) => duration_text_value(s@) is None,
        },
{
    match humantime::parse_duration(s) {
        Ok(d) => Ok(Span { secs: d.as_secs(), nanos: d.subsec_nanos() }),
        Err(e) => Err(e),
    }
}

/// Relies on `SystemTime::elapsed` on the epoch: the time now, or `None`
/// where the clock stands before the epoch. Of its value only the documented
/// bound of `Duration::subsec_nanos` is known: under one second.
#[verifier::external_body]
pub(crate) fn clock_now() -> (r: Option<Span>)
    ensures
        r matches Some(t) ==> t.nanos < NANOS_PER_SEC,
{
    match std::time::UNIX_EPOCH.elapsed() {
        Ok(d) => Some(Span { secs: d.as_secs(), nanos: d.subsec_nanos() }),
        Err(_) => None,
    }
}

/// A test on one timestamp of an entry, relative to the time now.
#[derive(Clone, Copy, Debug, PartialEq, Eq, Structural)]
pub enum DurationFilter {
    /// The timestamp lies within the span before now.
    Less(Span),
    /// The timestamp lies further back than the span before now.
    Greater(Span),
}

/// Reads a duration text, refusing one with too many digits.
fn span_text(s: &str) -> (r: Option<Span>)
    ensures
        r matches Some(d) ==> span_of_text(s@) == Some((d.secs, d.nanos)),
        r is None ==> span_of_text(s@) is None,
{
    if count_digits(s) > MAX_DURATION_DIGITS {
        return None;
    }
    match read_span(s) {
        Ok(d) => Some(d),
        Err(_) => None,
    }
}

impl DurationFilter {
    pub open spec fn span(self) -> Span {
        match self {
            DurationFilter::Less(d) => d,
            DurationFilter::Greater(d) => d,
        }
    }

    /// Outcome for a timestamp of `instant` seconds since the epoch, when the
    /// time now is `now`: the cutoff is `now` less the span; `Less` asks that
    /// the cutoff lie strictly before the timestamp, `Greater` strictly after.
    pub open spec fn verdict_at(self, now: Span, instant: u64) -> Result<bool, EntryError> {
        if self.span().total() > now.total() {
            Err(EntryError::TimeUnderflow)
        } else {
            let cutoff = now.total() - self.span().total();
            let t = instant * NANOS_PER_SEC;
            Ok(
                match self {
                    DurationFilter::Less(_) => cutoff < t,
                    DurationFilter::Greater(_) => cutoff > t,
                },
            )
        }
    }

    /// The filter a token denotes: `-` then a duration for `Less`; `+` then
    /// a duration, or a bare duration, for `Greater`; a duration holds at
    /// most `MAX_DURATION_DIGITS` digits.
    pub open spec fn parsed(s: Seq<char>) -> Option<DurationFilter> {
        if s.len() > 0 && s[0] == '-' {
            match span_of_text(s.drop_first()) {
                Some(d) => Some(DurationFilter::Less(Span { secs: d.0, nanos: d.1 })),
                None => None,
            }
        } else if s.len() > 0 && s[0] == '+' {
            match span_of_text(s.drop_first()) {
                Some(d) => Some(DurationFilter::Greater(Span { secs: d.0, nanos: d.1 })),
                None => None,
            }
        } else {
            match span_of_text(s) {
                Some(d) => Some(DurationFilter::Greater(Span { secs: d.0, nanos: d.1 })),
                None => None,
            }
        }
    }

    /// Tests a timestamp against the filter at a given time now.
    pub fn matches_at(&self, now: Span, instant: u64) -> (r: Result<bool, EntryError>)
        ensures
            r == self.verdict_at(now, instant),
    {
        let d = match self {
            DurationFilter::Less(d) => *d,
            DurationFilter::Greater(d) => *d,
        };
        let now_n = now.as_nanos();
        let d_n = d.as_nanos();
        if d_n > now_n {
            return Err(EntryError::TimeUnderflow);
        }
        let cutoff = now_n - d_n;
        let t = instant as u128 * NANOS_PER_SEC;
        Ok(
            match self {
                DurationFilter::Less(_) => cutoff < t,
                DurationFilter::Greater(_) => cutoff > t,
            },
        )
    }

    /// Tests a timestamp of `instant` seconds since the epoch against the
    /// filter, reading the clock for the time now.
    pub fn matches(&self, instant: u64) -> (r: Result<bool, EntryError>)
        ensures
            r is Err && r->Err_0 == EntryError::ClockUnavailable || exists|now: Span|
                now.nanos < NANOS_PER_SEC && r == self.verdict_at(now, instant),
    {
        match clock_now() {
            Some(now) => self.matches_at(now, instant),
            None => Err(EntryError::ClockUnavailable),
        }
    }

    /// Reads a duration token (`1d`, `+3h`, `-30m`).
    pub fn parse(s: &str) -> (r: Result<DurationFilter, ParseError>)
        ensures
            r == match DurationFilter::parsed(s@) {
                Some(f) => Ok(f),
                None => Err(ParseError::InvalidDuration),
            },
    {
        let n = s.unicode_len();
        if n > 0 && s.get_char(0) == '-' {
            let rest = s.substring_char(1, n);
            assert(rest@ == s@.drop_first());
            match span_text(rest) {
                Some(d) => Ok(DurationFilter::Less(d)),
                None => Err(ParseError::InvalidDuration),
            }
        } else if n > 0 && s.get_char(0) == '+' {
            let rest = s.substring_char(1, n);
            assert(rest@ == s@.drop_first());
            match span_text(rest) {
                Some(d) => Ok(DurationFilter::Greater(d)),
                None => Err(ParseError::InvalidDuration),
            }
        } else {
            match span_text(s) {
                Some(d) => Ok(DurationFilter::Greater(d)),
                None => Err(ParseError::InvalidDuration),
            }
        }
    }
}

/// With a span of whole seconds and a clock reading under a second past its
/// seconds, a timestamp newer (in seconds) than now less the span lies within
/// the span: `Less` accepts it and `Greater` does not. One older lies beyond
/// it: `Greater` accepts it and `Less` does not.
pub proof fn whole_second_spans_split_at_cutoff(d_secs: u64, now: Span, instant: u64)
    requires
        now.nanos < NANOS_PER_SEC,
        d_secs <= now.secs,
    ensures
        instant > now.secs - d_secs ==> DurationFilter::Less(Span { secs: d_secs, nanos: 0 }).verdict_at(now, instant)
            == Ok::<bool, EntryError>(true) && DurationFilter::Greater(
            Span { secs: d_secs, nanos: 0 },
        ).verdict_at(now, instant) == Ok::<bool, EntryError>(false),
        instant < now.secs - d_secs ==> DurationFilter::Less(Span { secs: d_secs, nanos: 0 }).verdict_at(now, instant)
            == Ok::<bool, EntryError>(false) && DurationFilter::Greater(
            Span { secs: d_secs, nanos: 0 },
        ).verdict_at(now, instant) == Ok::<bool, EntryError>(true),
{
    let c: int = now.secs - d_secs;
    let i: int = instant as int;
    let g: int = NANOS_PER_SEC as int;
    assert(now.secs * g - d_secs * g == c * g) by (nonlinear_arith)
        requires
            c == now.secs - d_secs,
    ;
    assert(d_secs * g <= now.secs * g) by (nonlinear_arith)
        requires
            d_secs <= now.secs,
            g > 0,
    ;
    if i > c {
        assert(i * g >= (c + 1) * g) by (nonlinear_arith)
            requires
                i >= c + 1,
                g > 0,
        ;
    }
    if i < c {
        assert(i * g <= (c - 1) * g) by (nonlinear_arith)
            requires
                i <= c - 1,
                g > 0,
        ;
    }
}

impl std::str::FromStr for DurationFilter {
    type Err = ParseError;

    fn from_str(s: &str) -> (r: Result<DurationFilter, ParseError>)
        ensures
            r == match DurationFilter::parsed(s@) {
                Some(f) => Ok(f),
                None => Err(ParseError::InvalidDuration),
            },
    {
        DurationFilter::parse(s)
    }
}

} // verus!
