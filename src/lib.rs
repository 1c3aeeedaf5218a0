//! Filter-and-match engine of a recursive file search: filter grammars,
//! their matching rules, and the per-entry pipeline that combines them.

pub mod command;
pub mod duration;
pub mod entry;
pub mod error;
pub mod file_type;
pub mod numeral;
pub mod octal;
pub mod options;
pub mod owner;
pub mod pattern;
pub mod size;

pub use command::{signal_ends_run, Command, Error, Step, SIG_EXIT_MARKER};
pub use duration::{whole_second_spans_split_at_cutoff, DurationFilter, Span};
pub use entry::{Entry, FileKind};
pub use error::{EntryError, ParseError};
pub use file_type::TypeFilter;
pub use octal::OctalFilter;
pub use options::{
    size_filters_all_must_hold, time_filters_all_must_hold, type_filters_any_may_hold, Options,
};
pub use owner::{lookup_key, split_owner, LookupKey, OwnerFilter};
pub use pattern::Pattern;
pub use size::SizeFilter;
