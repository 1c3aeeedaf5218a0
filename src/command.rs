use vstd::prelude::*;

use crate::duration::{clock_now, DurationFilter, Span};
use crate::entry::Entry;
use crate::error::EntryError;
use crate::options::{all_durations, and_then, duration_verdict, time_stage, Options};

verus! {

/// Added to a signal number to form the exit status of a run it ended.
pub const SIG_EXIT_MARKER: usize = 128;

/// A condition that ends the whole run.
#[derive(Clone, Copy, Debug, PartialEq, Eq, Structural)]
pub enum Error {
    /// A signal of this number was received.
    Terminated(usize),
}

impl Error {
    /// Exit status of a run that ended this way: the signal number plus
    /// 128, where that fits in an `i32`.
    pub fn exit_code(&self) -> (r: Option<i32>)
        ensures
            match *self {
                Error::Terminated(u) => r == if u + SIG_EXIT_MARKER <= i32::MAX {
                    Some((u + SIG_EXIT_MARKER) as i32)
                } else {
                    None::<i32>
                },
            },
    {
        match self {
            Error::Terminated(u) => {
                if *u <= (i32::MAX as usize) - SIG_EXIT_MARKER {
                    Some((*u + SIG_EXIT_MARKER) as i32)
                } else {
                    None
                }
            },
        }
    }
}

/// What the run does with one item of the walk.
#[derive(Debug)]
pub enum Step {
    /// Write this matching path.
    Emit(String),
    /// Write this recoverable error to the diagnostic stream.
    Report(EntryError),
    /// Drop the item silently.
    Skip,
    /// Stop the whole run.
    Terminate(Error),
}

impl Options {
    /// A recoverable error, shown only where errors are to be shown.
    pub open spec fn report(self, e: EntryError) -> Step {
        if self.show_errors {
            Step::Report(e)
        } else {
            Step::Skip
        }
    }

    /// What happens to an item pulled from the walk while the signal flag
    /// reads `signal`: a set flag ends the run whatever the item; otherwise a
    /// failed item is an error, and an entry is written where the pipeline
    /// passes it.
    pub open spec fn next_step(
        self,
        signal: usize,
        item: Result<Entry, EntryError>,
        now: Option<Span>,
    ) -> Step {
        if signal != 0 {
            Step::Terminate(Error::Terminated(signal))
        } else {
            match item {
                Err(e) => self.report(e),
                Ok(ent) => match self.verdict(ent, now) {
                    Ok(true) => Step::Emit(ent.path),
                    Ok(false) => Step::Skip,
                    Err(e) => self.report(e),
                },
            }
        }
    }

    /// Paths written by a run over `items`, the flag reading `signals[i]`
    /// and the clock `nows[i]` when item `i` is pulled, and the condition
    /// that ended the run early, if any.
    pub open spec fn run_output(
        self,
        signals: Seq<usize>,
        items: Seq<Result<Entry, EntryError>>,
        nows: Seq<Option<Span>>,
    ) -> (Seq<String>, Option<Error>)
        decreases items.len(),
    {
        if items.len() == 0 || signals.len() == 0 || nows.len() == 0 {
            (Seq::empty(), None)
        } else {
            let rest = self.run_output(signals.drop_first(), items.drop_first(), nows.drop_first());
            match self.next_step(signals[0], items[0], nows[0]) {
                Step::Terminate(e) => (Seq::empty(), Some(e)),
                Step::Emit(p) => (seq![p] + rest.0, rest.1),
                _ => rest,
            }
        }
    }
}

/// A run ends at the first item pulled while the signal flag reads nonzero:
/// it writes exactly what the items before that one wrote, nothing of that
/// item or any later one, and ends with that signal number.
pub proof fn signal_ends_run(
    o: Options,
    signals: Seq<usize>,
    items: Seq<Result<Entry, EntryError>>,
    nows: Seq<Option<Span>>,
    k: int,
)
    requires
        signals.len() == items.len(),
        nows.len() == items.len(),
        0 <= k < items.len(),
        signals[k] != 0,
        forall|j: int| 0 <= j < k ==> signals[j] == 0,
    ensures
        o.run_output(signals, items, nows) == (
            o.run_output(signals.take(k), items.take(k), nows.take(k)).0,
            Some(Error::Terminated(signals[k])),
        ),
    decreases k,
{
    if k > 0 {
        signal_ends_run(o, signals.drop_first(), items.drop_first(), nows.drop_first(), k - 1);
        assert(signals.take(k).drop_first() =~= signals.drop_first().take(k - 1));
        assert(items.take(k).drop_first() =~= items.drop_first().take(k - 1));
        assert(nows.take(k).drop_first() =~= nows.drop_first().take(k - 1));
        assert(signals.take(k)[0] == signals[0]);
        assert(items.take(k)[0] == items[0]);
        assert(nows.take(k)[0] == nows[0]);
    }
}

/// Runs the filter pipeline of a configured search over entries.
pub struct Command<'a> {
    options: &'a Options,
}

impl<'a> Command<'a> {
    /// The configuration the command runs with.
    pub closed spec fn settings(&self) -> Options {
        *self.options
    }

    pub fn new(options: &'a Options) -> (r: Self)
        ensures
            r.settings() == *options,
    {
        Self { options }
    }

    pub fn matches_pattern(&self, ent: &Entry) -> (r: bool)
        ensures
            r == self.settings().pattern_stage(*ent),
    {
        match &self.options.pattern {
            Some(p) => p.is_match(ent.path.as_str()),
            None => true,
        }
    }

    pub fn matches_owner(&self, ent: &Entry) -> (r: Result<bool, EntryError>)
        ensures
            r == self.settings().owner_stage(*ent),
    {
        match &self.options.owner {
            Some(f) => {
                let uid = match &ent.uid {
                    Ok(u) => *u,
                    Err(e) => return Err(e.clone()),
                };
                let gid = match &ent.gid {
                    Ok(g) => *g,
                    Err(e) => return Err(e.clone()),
                };
                Ok(f.matches(uid, gid))
            },
            None => Ok(true),
        }
    }

    pub fn matches_mode(&self, ent: &Entry) -> (r: Result<bool, EntryError>)
        ensures
            r == self.settings().mode_stage(*ent),
    {
        match &self.options.mode {
            Some(f) => match &ent.mode {
                Ok(m) => Ok(f.matches(*m)),
                Err(e) => Err(e.clone()),
            },
            None => Ok(true),
        }
    }

    /// Passes an entry that any of the type filters accepts, or every entry
    /// where there are none.
    pub fn matches_type_filters(&self, ent: &Entry) -> (r: bool)
        ensures
            r == self.settings().type_stage(*ent),
    {
        let fs = &self.options.type_filters;
        if fs.len() == 0 {
            return true;
        }
        let mut i: usize = 0;
        while i < fs.len()
            invariant
                i <= fs@.len(),
                fs@ == self.settings().type_filters@,
                forall|j: int| 0 <= j < i ==> !(#[trigger] fs@[j]).accepts(ent.kind, ent.executable),
            decreases fs@.len() - i,
        {
            if fs[i].matches(ent) {
                assert(fs@[i as int].accepts(ent.kind, ent.executable));
                return true;
            }
            i = i + 1;
        }
        false
    }

    /// Passes an entry that every size filter accepts.
    pub fn matches_size_filters(&self, ent: &Entry) -> (r: Result<bool, EntryError>)
        ensures
            r == self.settings().size_stage(*ent),
    {
        let fs = &self.options.size_filters;
        if fs.len() == 0 {
            return Ok(true);
        }
        let size = match &ent.size {
            Ok(n) => *n,
            Err(e) => return Err(e.clone()),
        };
        let mut i: usize = 0;
        while i < fs.len()
            invariant
                i <= fs@.len(),
                fs@ == self.settings().size_filters@,
                fs@.len() > 0,
                ent.size == Ok::<u64, EntryError>(size),
                forall|j: int| 0 <= j < i ==> (#[trigger] fs@[j]).accepts(size),
            decreases fs@.len() - i,
        {
            if !fs[i].matches(size) {
                assert(!fs@[i as int].accepts(size));
                return Ok(false);
            }
            i = i + 1;
        }
        Ok(true)
    }

    pub fn matches_atime_filters(&self, ent: &Entry, now: Option<Span>) -> (r: Result<
        bool,
        EntryError,
    >)
        ensures
            r == time_stage(self.settings().atime_filters@, ent.atime, now),
    {
        match_time_filters(&self.options.atime_filters, &ent.atime, now)
    }

    pub fn matches_ctime_filters(&self, ent: &Entry, now: Option<Span>) -> (r: Result<
        bool,
        EntryError,
    >)
        ensures
            r == time_stage(self.settings().ctime_filters@, ent.ctime, now),
    {
        match_time_filters(&self.options.ctime_filters, &ent.ctime, now)
    }

    pub fn matches_creation_time_filters(&self, ent: &Entry, now: Option<Span>) -> (r: Result<
        bool,
        EntryError,
    >)
        ensures
            r == time_stage(self.settings().creation_time_filters@, ent.created_time, now),
    {
        match_time_filters(&self.options.creation_time_filters, &ent.created_time, now)
    }

    pub fn matches_mtime_filters(&self, ent: &Entry, now: Option<Span>) -> (r: Result<
        bool,
        EntryError,
    >)
        ensures
            r == time_stage(self.settings().mtime_filters@, ent.mtime, now),
    {
        match_time_filters(&self.options.mtime_filters, &ent.mtime, now)
    }

    /// Runs every stage on one entry, with `now` as the time now (`None`
    /// where the clock could not be read).
    pub fn evaluate(&self, ent: &Entry, now: Option<Span>) -> (r: Result<bool, EntryError>)
        ensures
            r == self.settings().verdict(*ent, now),
    {
        if !self.matches_pattern(ent) {
            return Ok(false);
        }
        let r = self.matches_owner(ent);
        if !(r matches Ok(true)) {
            return r;
        }
        let r = self.matches_mode(ent);
        if !(r matches Ok(true)) {
            return r;
        }
        if !self.matches_type_filters(ent) {
            return Ok(false);
        }
        let r = self.matches_size_filters(ent);
        if !(r matches Ok(true)) {
            return r;
        }
        let r = self.matches_atime_filters(ent, now);
        if !(r matches Ok(true)) {
            return r;
        }
        let r = self.matches_ctime_filters(ent, now);
        if !(r matches Ok(true)) {
            return r;
        }
        let r = self.matches_creation_time_filters(ent, now);
        if !(r matches Ok(true)) {
            return r;
        }
        self.matches_mtime_filters(ent, now)
    }

    /// Decides what becomes of one item of the walk, pulled while the signal
    /// flag reads `signal`, with `now` as the time now.
    pub fn step(&self, signal: usize, item: Result<Entry, EntryError>, now: Option<Span>) -> (r:
        Step)
        ensures
            r == self.settings().next_step(signal, item, now),
    {
        if signal != 0 {
            return Step::Terminate(Error::Terminated(signal));
        }
        match item {
            Err(e) => self.report(e),
            Ok(ent) => match self.evaluate(&ent, now) {
                Ok(true) => Step::Emit(ent.path),
                Ok(false) => Step::Skip,
                Err(e) => self.report(e),
            },
        }
    }

    fn report(&self, e: EntryError) -> (r: Step)
        ensures
            r == self.settings().report(e),
    {
        if self.options.show_errors {
            Step::Report(e)
        } else {
            Step::Skip
        }
    }

    /// Decides what becomes of one item of the walk, pulled while the signal
    /// flag reads `signal`, reading the clock where a timestamp filter is
    /// configured.
    pub fn process(&self, signal: usize, item: Result<Entry, EntryError>) -> (r: Step)
        ensures
            exists|now: Option<Span>| r == self.settings().next_step(signal, item, now),
            !self.settings().reads_clock() ==> r == self.settings().next_step(signal, item, None),
            signal != 0 ==> r == Step::Terminate(Error::Terminated(signal)),
    {
        let o = &self.options;
        let now = if signal == 0 && (o.atime_filters.len() > 0 || o.ctime_filters.len() > 0
            || o.creation_time_filters.len() > 0 || o.mtime_filters.len() > 0) {
            clock_now()
        } else {
            None
        };
        self.step(signal, item, now)
    }
}

/// Applies timestamp filters in order to one timestamp, stopping at the first
/// that fails or errs.
fn match_time_filters(
    fs: &Vec<DurationFilter>,
    instant: &Result<u64, EntryError>,
    now: Option<Span>,
) -> (r: Result<bool, EntryError>)
    ensures
        r == time_stage(fs@, *instant, now),
{
    if fs.len() == 0 {
        return Ok(true);
    }
    let t = match instant {
        Ok(t) => *t,
        Err(e) => return Err(e.clone()),
    };
    let mut i: usize = 0;
    assert(fs@.skip(0) =~= fs@);
    while i < fs.len()
        invariant
            i <= fs@.len(),
            fs@.len() > 0,
            *instant == Ok::<u64, EntryError>(t),
            all_durations(fs@, now, t) == all_durations(fs@.skip(i as int), now, t),
        decreases fs@.len() - i,
    {
        let v = match now {
            Some(n) => fs[i].matches_at(n, t),
            None => Err(EntryError::ClockUnavailable),
        };
        assert(fs@.skip(i as int).drop_first() =~= fs@.skip(i + 1));
        assert(v == duration_verdict(fs@[i as int], now, t));
        assert(fs@.skip(i as int)[0] == fs@[i as int]);
        match v {
            Ok(true) => {},
            _ => return v,
        }
        i = i + 1;
    }
    assert(fs@.skip(i as int).len() == 0);
    Ok(true)
}

} // verus!
