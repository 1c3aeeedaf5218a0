use findr::{
    Command, DurationFilter, Entry, EntryError, Error, FileKind, OctalFilter, Options, OwnerFilter,
    Pattern, SizeFilter, Span, Step, TypeFilter,
};

fn options() -> Options {
    Options {
        atime_filters: vec![],
        ctime_filters: vec![],
        creation_time_filters: vec![],
        pattern: None,
        dirs: vec![".".to_string()],
        type_filters: vec![],
        max_depth: None,
        min_depth: None,
        mode: None,
        mtime_filters: vec![],
        owner: None,
        show_errors: false,
        size_filters: vec![],
    }
}

fn entry(path: &str, kind: FileKind, executable: bool, mode: u32, size: u64) -> Entry {
    Entry {
        path: path.to_string(),
        kind,
        executable,
        uid: Ok(1000),
        gid: Ok(100),
        mode: Ok(mode),
        size: Ok(size),
        atime: Ok(1_000),
        ctime: Ok(1_000),
        created_time: Err(EntryError::Metadata("creation time unsupported".to_string())),
        mtime: Ok(1_000),
    }
}

/// The tree: `.`, `./a.txt` (empty, executable), `./one`, `./one/b.md`
/// (8 bytes), `./one/two`, `./one/two/c.txt` (empty, read-only), `./three`,
/// `./three/d.txt` (a symlink).
fn tree() -> Vec<Entry> {
    vec![
        entry(".", FileKind::Dir, false, 0o40755, 4096),
        entry("./a.txt", FileKind::File, true, 0o100744, 0),
        entry("./one", FileKind::Dir, false, 0o40755, 4096),
        entry("./one/b.md", FileKind::File, false, 0o100644, 8),
        entry("./one/two", FileKind::Dir, false, 0o40755, 4096),
        entry("./one/two/c.txt", FileKind::File, false, 0o100444, 0),
        entry("./three", FileKind::Dir, false, 0o40755, 4096),
        entry("./three/d.txt", FileKind::SymLink, false, 0o120777, 25),
    ]
}

fn run(opts: &Options, items: Vec<Result<Entry, EntryError>>) -> (Vec<String>, Option<Error>) {
    let cmd = Command::new(opts);
    let mut out = vec![];
    for item in items {
        match cmd.step(0, item, Some(Span::from_secs(10_000))) {
            Step::Emit(p) => out.push(p),
            Step::Terminate(e) => return (out, Some(e)),
            Step::Report(_) | Step::Skip => {}
        }
    }
    (out, None)
}

fn run_tree(opts: &Options) -> Vec<String> {
    run(opts, tree().into_iter().map(Ok).collect()).0
}

#[test]
fn files_and_symlinks_larger_than_zero() {
    let mut o = options();
    o.type_filters = vec![TypeFilter::File, TypeFilter::SymLink];
    o.size_filters = vec![SizeFilter::Greater(0)];
    assert_eq!(run_tree(&o), vec!["./one/b.md", "./three/d.txt"]);
    let mut items: Vec<Result<Entry, EntryError>> = tree().into_iter().map(Ok).collect();
    items.insert(3, Err(EntryError::Traversal("permission denied".to_string())));
    let mut unreadable = entry("./one/x", FileKind::File, false, 0o100644, 3);
    unreadable.size = Err(EntryError::Metadata("vanished".to_string()));
    items.insert(5, Ok(unreadable));
    let cmd = Command::new(&o);
    let mut out = vec![];
    for item in items {
        match cmd.process(0, item) {
            Step::Emit(p) => out.push(p),
            Step::Skip => {}
            other => panic!("unexpected {:?}", other),
        }
    }
    assert_eq!(out, vec!["./one/b.md", "./three/d.txt"]);
}

#[test]
fn no_filters_pass_every_entry() {
    assert_eq!(run_tree(&options()).len(), 8);
}

#[test]
fn directories_only() {
    let mut o = options();
    o.type_filters = vec![TypeFilter::Dir];
    assert_eq!(run_tree(&o), vec![".", "./one", "./one/two", "./three"]);
}

#[test]
fn read_only_mode() {
    let mut o = options();
    o.mode = Some(OctalFilter::parse("444").unwrap());
    assert_eq!(run_tree(&o), vec!["./one/two/c.txt"]);
}

#[test]
fn size_equal_zero_and_eight() {
    let mut o = options();
    o.size_filters = vec![SizeFilter::Equal(0)];
    assert_eq!(run_tree(&o), vec!["./a.txt", "./one/two/c.txt"]);
    o.size_filters = vec![SizeFilter::Equal(8)];
    assert_eq!(run_tree(&o), vec!["./one/b.md"]);
}

#[test]
fn pattern_on_paths() {
    let mut o = options();
    o.pattern = Some(Pattern::new(r"\.md$").unwrap());
    assert_eq!(run_tree(&o), vec!["./one/b.md"]);
}

#[test]
fn size_filters_all_must_hold() {
    let mut o = options();
    o.size_filters = vec![SizeFilter::Greater(0), SizeFilter::Less(100)];
    let cmd = Command::new(&o);
    assert!(cmd.matches_size_filters(&entry("m", FileKind::File, false, 0o644, 50)).unwrap());
    assert!(!cmd.matches_size_filters(&entry("z", FileKind::File, false, 0o644, 0)).unwrap());
    assert!(!cmd.matches_size_filters(&entry("b", FileKind::File, false, 0o644, 200)).unwrap());
}

#[test]
fn type_filters_any_may_hold() {
    let mut o = options();
    o.type_filters = vec![TypeFilter::File, TypeFilter::SymLink];
    let cmd = Command::new(&o);
    assert!(cmd.matches_type_filters(&entry("f", FileKind::File, false, 0o644, 1)));
    assert!(cmd.matches_type_filters(&entry("l", FileKind::SymLink, false, 0o777, 1)));
    assert!(!cmd.matches_type_filters(&entry("d", FileKind::Dir, false, 0o755, 1)));
}

#[test]
fn executables_only() {
    let mut o = options();
    o.type_filters = vec![TypeFilter::Executable];
    assert_eq!(run_tree(&o), vec!["./a.txt"]);
}

#[test]
fn executable_type_follows_probe_not_kind() {
    let mut o = options();
    o.type_filters = vec![TypeFilter::Executable];
    let cmd = Command::new(&o);
    assert!(cmd.matches_type_filters(&entry("./bin", FileKind::Dir, true, 0o40755, 1)));
    assert!(!cmd.matches_type_filters(&entry("./f", FileKind::File, false, 0o100755, 1)));
}

#[test]
fn symlinks_only() {
    let mut o = options();
    o.type_filters = vec![TypeFilter::parse("l").unwrap()];
    assert_eq!(run_tree(&o), vec!["./three/d.txt"]);
}

#[test]
fn owner_stage_uses_ids() {
    let mut o = options();
    o.owner = Some(OwnerFilter::UserGroup(1000, 100));
    assert_eq!(run_tree(&o).len(), 8);
    o.owner = Some(OwnerFilter::Group(7));
    assert!(run_tree(&o).is_empty());
}

#[test]
fn unreadable_attribute_drops_entry() {
    let mut o = options();
    o.size_filters = vec![SizeFilter::Greater(0)];
    let mut e = entry("./gone", FileKind::File, false, 0o644, 5);
    e.size = Err(EntryError::Metadata("vanished".to_string()));
    let cmd = Command::new(&o);
    assert!(matches!(cmd.step(0, Ok(e), None), Step::Skip));
    o.show_errors = true;
    let mut e = entry("./gone", FileKind::File, false, 0o644, 5);
    e.size = Err(EntryError::Metadata("vanished".to_string()));
    let cmd = Command::new(&o);
    match cmd.step(0, Ok(e), None) {
        Step::Report(EntryError::Metadata(m)) => assert_eq!(m, "vanished"),
        other => panic!("unexpected {:?}", other),
    }
}

#[test]
fn traversal_errors_are_recoverable() {
    let o = options();
    let items = vec![
        Ok(entry("./a", FileKind::File, false, 0o644, 1)),
        Err(EntryError::Traversal("permission denied".to_string())),
        Ok(entry("./b", FileKind::File, false, 0o644, 1)),
    ];
    assert_eq!(run(&o, items), (vec!["./a".to_string(), "./b".to_string()], None));
}

#[test]
fn creation_time_error_only_matters_when_filtered() {
    let mut o = options();
    assert_eq!(run_tree(&o).len(), 8);
    o.creation_time_filters = vec![DurationFilter::Greater(Span::from_secs(1))];
    assert!(run_tree(&o).is_empty());
}

#[test]
fn time_filters_all_must_hold() {
    let mut o = options();
    // At time 10 000 s, a timestamp of 1 000 s is 9 000 s old.
    o.mtime_filters = vec![
        DurationFilter::Greater(Span::from_secs(100)),
        DurationFilter::Less(Span::from_secs(9_500)),
    ];
    assert_eq!(run_tree(&o).len(), 8);
    o.mtime_filters.push(DurationFilter::Less(Span::from_secs(8_000)));
    assert!(run_tree(&o).is_empty());
}

#[test]
fn missing_clock_is_an_entry_error() {
    let mut o = options();
    o.atime_filters = vec![DurationFilter::Greater(Span::from_secs(1))];
    let cmd = Command::new(&o);
    let e = entry("./a", FileKind::File, false, 0o644, 1);
    assert!(matches!(cmd.matches_atime_filters(&e, None), Err(EntryError::ClockUnavailable)));
    assert!(cmd.matches_ctime_filters(&e, None).unwrap());
}

#[test]
fn signal_terminates_run() {
    let o = options();
    let cmd = Command::new(&o);
    let mut out = vec![];
    let mut ended = None;
    let signals = [0usize, 0, 15, 0];
    for (sig, ent) in signals.iter().zip(tree()) {
        match cmd.process(*sig, Ok(ent)) {
            Step::Emit(p) => out.push(p),
            Step::Terminate(e) => {
                ended = Some(e);
                break;
            }
            _ => {}
        }
    }
    assert_eq!(out, vec![".", "./a.txt"]);
    assert_eq!(ended, Some(Error::Terminated(15)));
    assert_eq!(Error::Terminated(15).exit_code(), Some(143));
}

#[test]
fn signal_overrides_traversal_error() {
    let o = options();
    let cmd = Command::new(&o);
    let item = Err(EntryError::Traversal("x".to_string()));
    assert!(matches!(cmd.process(2, item), Step::Terminate(Error::Terminated(2))));
}

#[test]
fn exit_code_out_of_range() {
    assert_eq!(Error::Terminated(2).exit_code(), Some(130));
    assert_eq!(Error::Terminated(usize::MAX).exit_code(), None);
    assert_eq!(Error::Terminated(i32::MAX as usize - 128).exit_code(), Some(i32::MAX));
    assert_eq!(Error::Terminated(i32::MAX as usize - 127).exit_code(), None);
}

#[test]
fn mode_error_reported_before_size() {
    let mut o = options();
    o.mode = Some(OctalFilter::Equal(0o644));
    o.size_filters = vec![SizeFilter::Greater(0)];
    o.show_errors = true;
    let mut e = entry("./x", FileKind::File, false, 0o644, 1);
    e.mode = Err(EntryError::Metadata("mode".to_string()));
    e.size = Err(EntryError::Metadata("size".to_string()));
    let cmd = Command::new(&o);
    assert!(matches!(cmd.evaluate(&e, None), Err(EntryError::Metadata(m)) if m == "mode"));
}
