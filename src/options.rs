use vstd::prelude::*;

use crate::duration::{DurationFilter, Span};
use crate::entry::{Entry, FileKind};
use crate::error::EntryError;
use crate::file_type::TypeFilter;
use crate::octal::OctalFilter;
use crate::owner::OwnerFilter;
use crate::pattern::{regex_finds, Pattern};
use crate::size::SizeFilter;

verus! {

/// The configured search: roots, depth bounds, and the filters of each
/// family. Fixed for the whole run.
pub struct Options {
    pub atime_filters: Vec<DurationFilter>,
    pub ctime_filters: Vec<DurationFilter>,
    pub creation_time_filters: Vec<DurationFilter>,
    pub pattern: Option<Pattern>,
    pub dirs: Vec<String>,
    pub type_filters: Vec<TypeFilter>,
    pub max_depth: Option<usize>,
    pub min_depth: Option<usize>,
    pub mode: Option<OctalFilter>,
    pub mtime_filters: Vec<DurationFilter>,
    pub owner: Option<OwnerFilter>,
    pub show_errors: bool,
    pub size_filters: Vec<SizeFilter>,
}

/// The first stage's outcome, or the second's where the first passed.
pub open spec fn and_then(a: Result<bool, EntryError>, b: Result<bool, EntryError>) -> Result<
    bool,
    EntryError,
> {
    match a {
        Ok(true) => b,
        _ => a,
    }
}

/// Outcome of one duration filter given the time now, if the clock was read.
pub open spec fn duration_verdict(f: DurationFilter, now: Option<Span>, instant: u64) -> Result<
    bool,
    EntryError,
> {
    match now {
        Some(n) => f.verdict_at(n, instant),
        None => Err(EntryError::ClockUnavailable),
    }
}

/// Filters applied in order, stopping at the first that fails or errs.
pub open spec fn all_durations(fs: Seq<DurationFilter>, now: Option<Span>, instant: u64) -> Result<
    bool,
    EntryError,
>
    decreases fs.len(),
{
    if fs.len() == 0 {
        Ok(true)
    } else {
        and_then(duration_verdict(fs[0], now, instant), all_durations(fs.drop_first(), now, instant))
    }
}

/// A timestamp stage: no filters pass everything; otherwise the timestamp
/// is read and every filter must hold.
pub open spec fn time_stage(
    fs: Seq<DurationFilter>,
    instant: Result<u64, EntryError>,
    now: Option<Span>,
) -> Result<bool, EntryError> {
    if fs.len() == 0 {
        Ok(true)
    } else {
        match instant {
            Err(e) => Err(e),
            Ok(t) => all_durations(fs, now, t),
        }
    }
}

/// Every size filter accepts `n` bytes.
pub open spec fn all_sizes(fs: Seq<SizeFilter>, n: u64) -> bool {
    forall|i: int| 0 <= i < fs.len() ==> #[trigger] fs[i].accepts(n)
}

/// Some type filter accepts an entry of this kind and executability.
pub open spec fn any_type(fs: Seq<TypeFilter>, kind: FileKind, executable: bool) -> bool {
    exists|i: int| 0 <= i < fs.len() && #[trigger] fs[i].accepts(kind, executable)
}

impl Options {
    pub open spec fn pattern_stage(self, ent: Entry) -> bool {
        match self.pattern {
            None => true,
            Some(p) => regex_finds(p@, ent.path@),
        }
    }

    pub open spec fn owner_stage(self, ent: Entry) -> Result<bool, EntryError> {
        match self.owner {
            None => Ok(true),
            Some(f) => match ent.uid {
                Err(e) => Err(e),
                Ok(u) => match ent.gid {
                    Err(e) => Err(e),
                    Ok(g) => Ok(f.accepts(u, g)),
                },
            },
        }
    }

    pub open spec fn mode_stage(self, ent: Entry) -> Result<bool, EntryError> {
        match self.mode {
            None => Ok(true),
            Some(f) => match ent.mode {
                Err(e) => Err(e),
                Ok(m) => Ok(f.accepts(m)),
            },
        }
    }

    /// Type filters combine by "or": any one of them suffices.
    pub open spec fn type_stage(self, ent: Entry) -> bool {
        let fs = self.type_filters@;
        fs.len() == 0 || any_type(fs, ent.kind, ent.executable)
    }

    /// Size filters combine by "and": every one of them must hold.
    pub open spec fn size_stage(self, ent: Entry) -> Result<bool, EntryError> {
        let fs = self.size_filters@;
        if fs.len() == 0 {
            Ok(true)
        } else {
            match ent.size {
                Err(e) => Err(e),
                Ok(n) => Ok(all_sizes(fs, n)),
            }
        }
    }

    /// Outcome of the whole pipeline for one entry: the stages pattern,
    /// owner, mode, type, size, access, change, creation and modification
    /// time, in that order, the first failure or error deciding.
    pub open spec fn verdict(self, ent: Entry, now: Option<Span>) -> Result<bool, EntryError> {
        if !self.pattern_stage(ent) {
            Ok(false)
        } else {
            and_then(
                self.owner_stage(ent),
                and_then(
                    self.mode_stage(ent),
                    and_then(
                        Ok(self.type_stage(ent)),
                        and_then(
                            self.size_stage(ent),
                            and_then(
                                time_stage(self.atime_filters@, ent.atime, now),
                                and_then(
                                    time_stage(self.ctime_filters@, ent.ctime, now),
                                    and_then(
                                        time_stage(self.creation_time_filters@, ent.created_time, now),
                                        time_stage(self.mtime_filters@, ent.mtime, now),
                                    ),
                                ),
                            ),
                        ),
                    ),
                ),
            )
        }
    }

    /// Whether any timestamp filter is configured.
    pub open spec fn reads_clock(self) -> bool {
        self.atime_filters@.len() > 0 || self.ctime_filters@.len() > 0
            || self.creation_time_filters@.len() > 0 || self.mtime_filters@.len() > 0
    }
}

/// Repeated size filters combine by "and": where at least one is
/// configured and the entry's size could be read, the entry passes the size
/// stage exactly when every size filter accepts that size.
pub proof fn size_filters_all_must_hold(o: Options, ent: Entry)
    requires
        o.size_filters@.len() > 0,
        ent.size is Ok,
    ensures
        o.size_stage(ent) is Ok,
        o.size_stage(ent) == Ok::<bool, EntryError>(true) <==> forall|i: int|
            0 <= i < o.size_filters@.len() ==> #[trigger] o.size_filters@[i].accepts(
                ent.size->Ok_0,
            ),
{
}

/// Repeated timestamp filters combine by "and": where the clock was read,
/// none of the spans reaches back before the epoch, and the timestamp could
/// be read, an entry passes the stage exactly when every filter accepts it.
pub proof fn time_filters_all_must_hold(
    fs: Seq<DurationFilter>,
    instant: Result<u64, EntryError>,
    now: Span,
)
    requires
        fs.len() > 0,
        instant is Ok,
        forall|i: int| 0 <= i < fs.len() ==> (#[trigger] fs[i]).span().total() <= now.total(),
    ensures
        time_stage(fs, instant, Some(now)) is Ok,
        time_stage(fs, instant, Some(now)) == Ok::<bool, EntryError>(true) <==> forall|i: int|
            0 <= i < fs.len() ==> #[trigger] fs[i].verdict_at(now, instant->Ok_0) == Ok::<
                bool,
                EntryError,
            >(true),
{
    durations_conjoin(fs, now, instant->Ok_0);
}

proof fn durations_conjoin(fs: Seq<DurationFilter>, now: Span, t: u64)
    requires
        forall|i: int| 0 <= i < fs.len() ==> (#[trigger] fs[i]).span().total() <= now.total(),
    ensures
        all_durations(fs, Some(now), t) is Ok,
        all_durations(fs, Some(now), t) == Ok::<bool, EntryError>(true) <==> forall|i: int|
            0 <= i < fs.len() ==> #[trigger] fs[i].verdict_at(now, t) == Ok::<bool, EntryError>(
                true,
            ),
    decreases fs.len(),
{
    if fs.len() > 0 {
        let rest = fs.drop_first();
        assert forall|i: int| 0 <= i < rest.len() implies (#[trigger] rest[i]).span().total()
            <= now.total() by {
            assert(rest[i] == fs[i + 1]);
        }
        durations_conjoin(rest, now, t);
        assert(fs[0].span().total() <= now.total());
        if all_durations(fs, Some(now), t) == Ok::<bool, EntryError>(true) {
            assert forall|i: int| 0 <= i < fs.len() implies #[trigger] fs[i].verdict_at(now, t)
                == Ok::<bool, EntryError>(true) by {
                if i > 0 {
                    assert(fs[i] == rest[i - 1]);
                }
            }
        }
        if forall|i: int|
            0 <= i < fs.len() ==> #[trigger] fs[i].verdict_at(now, t) == Ok::<bool, EntryError>(
                true,
            ) {
            assert(fs[0].verdict_at(now, t) == Ok::<bool, EntryError>(true));
            assert forall|i: int| 0 <= i < rest.len() implies #[trigger] rest[i].verdict_at(now, t)
                == Ok::<bool, EntryError>(true) by {
                assert(rest[i] == fs[i + 1]);
            }
        }
    }
}

/// Repeated type filters combine by "or": where at least one is configured,
/// an entry passes the type stage exactly when some type filter accepts it.
pub proof fn type_filters_any_may_hold(o: Options, ent: Entry)
    requires
        o.type_filters@.len() > 0,
    ensures
        o.type_stage(ent) <==> exists|i: int|
            0 <= i < o.type_filters@.len() && #[trigger] o.type_filters@[i].accepts(
                ent.kind,
                ent.executable,
            ),
{
}

} // verus!
