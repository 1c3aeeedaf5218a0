use vstd::prelude::*;

verus! {

/// Why a filter token was rejected.
#[derive(Clone, Copy, Debug, PartialEq, Eq, Structural)]
pub enum ParseError {
    /// Not a size: a number with an optional unit.
    InvalidSize,
    /// Not a human-readable duration.
    InvalidDuration,
    /// Not an octal permission mask.
    InvalidMode,
    /// No such user name or id.
    InvalidUser,
    /// No such group name or id.
    InvalidGroup,
    /// Not a regular expression.
    InvalidPattern,
    /// Not one of the entry type names.
    InvalidType,
}

/// A failure that drops one entry and lets the search go on.
#[derive(Debug)]
pub enum EntryError {
    /// An attribute of the entry could not be read; the text says why.
    Metadata(String),
    /// The walker could not produce the entry; the text says why.
    Traversal(String),
    /// The system clock could not be read.
    ClockUnavailable,
    /// A duration reaches back before the epoch.
    TimeUnderflow,
}

impl Clone for EntryError {
    fn clone(&self) -> (r: Self)
        ensures
            r == *self,
    {
        match self {
            EntryError::Metadata(m) => EntryError::Metadata(m.clone()),
            EntryError::Traversal(m) => EntryError::Traversal(m.clone()),
            EntryError::ClockUnavailable => EntryError::ClockUnavailable,
            EntryError::TimeUnderflow => EntryError::TimeUnderflow,
        }
    }
}

} // verus!
