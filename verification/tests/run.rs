use libbuf::cli::{next_step, Options, RunAction, RunEvent, RunState};

fn options() -> Options {
    Options {
        source: Some("os.iso".to_string()),
        target: Some("/dev/sdb".to_string()),
        list: false,
        block_size: "32MiB".to_string(),
        offset: 0,
        force: false,
        dry_run: false,
        no_logging: false,
        verbose: false,
    }
}

// Runs the steps up to the validation of the source and target.
fn validated(opts: &Options) -> RunState {
    let (s, a) = next_step(opts, RunState::Start, RunEvent::Begin);
    assert!(matches!(a, RunAction::ResolveSource(ref p) if p == "os.iso"));
    let (s, a) = next_step(opts, s, RunEvent::SourceResolved("/abs/os.iso".to_string()));
    assert!(matches!(a, RunAction::CheckPrivilege));
    let (s, a) = next_step(opts, s, RunEvent::PrivilegeChecked(true));
    match a {
        RunAction::Validate(p) => {
            assert_eq!(p.source, "/abs/os.iso");
            assert_eq!(p.target, "/dev/sdb");
            assert_eq!(p.block_size, 32 * 1024 * 1024);
            assert_eq!(p.offset, opts.offset);
        }
        other => panic!("unexpected {:?}", other),
    }
    s
}

#[test]
fn list_mode_only_lists() {
    let mut o = options();
    o.list = true;
    o.source = None;
    let (s, a) = next_step(&o, RunState::Start, RunEvent::Begin);
    assert!(matches!(a, RunAction::ListDevices));
    assert!(matches!(s, RunState::Finished));
}

#[test]
fn missing_paths_stop_the_run() {
    let mut o = options();
    o.target = None;
    let (s, a) = next_step(&o, RunState::Start, RunEvent::Begin);
    assert!(matches!(s, RunState::Failed));
    assert!(matches!(a, RunAction::Fail(ref m) if m == "--target/-t is required. Use --help for usage."));
}

#[test]
fn dry_run_stops_after_validation() {
    let mut o = options();
    o.dry_run = true;
    o.force = true;
    let s = validated(&o);
    let (s, a) = next_step(&o, s, RunEvent::ValidationPassed(4096));
    assert!(matches!(a, RunAction::Exit));
    assert!(matches!(s, RunState::Finished));
}

#[test]
fn force_writes_right_after_validation() {
    let mut o = options();
    o.force = true;
    o.offset = 512;
    let s = validated(&o);
    let (s, a) = next_step(&o, s, RunEvent::ValidationPassed(4096));
    match a {
        RunAction::Write { params, source_size } => {
            assert_eq!(source_size, 4096);
            assert_eq!(params.offset, 512);
        }
        other => panic!("unexpected {:?}", other),
    }
    let (s, a) = next_step(&o, s, RunEvent::WriteDone);
    assert!(matches!(a, RunAction::Exit));
    assert!(matches!(s, RunState::Finished));
}

#[test]
fn a_write_needs_a_yes() {
    let o = options();
    let s = validated(&o);
    let (s, a) = next_step(&o, s, RunEvent::ValidationPassed(4096));
    assert!(matches!(a, RunAction::AskConfirmation { ref source, ref target, source_size: 4096 }
        if source == "/abs/os.iso" && target == "/dev/sdb"));
    let (_, a) = next_step(&o, s, RunEvent::Answered(" Y\n".to_string()));
    assert!(matches!(a, RunAction::Write { source_size: 4096, .. }));

    let s = validated(&o);
    let (s, _) = next_step(&o, s, RunEvent::ValidationPassed(4096));
    let (s, a) = next_step(&o, s, RunEvent::Answered("yes\n".to_string()));
    assert!(matches!(a, RunAction::Fail(ref m) if m == "Aborted by user."));
    assert!(matches!(s, RunState::Failed));
}

#[test]
fn unprivileged_runs_relaunch() {
    let mut o = options();
    o.verbose = true;
    let (s, _) = next_step(&o, RunState::Start, RunEvent::Begin);
    let (s, _) = next_step(&o, s, RunEvent::SourceResolved("/abs/os.iso".to_string()));
    let (s, a) = next_step(&o, s, RunEvent::PrivilegeChecked(false));
    assert!(matches!(s, RunState::Finished));
    match a {
        RunAction::Relaunch(args) => assert_eq!(
            args,
            vec!["--source", "/abs/os.iso", "--target", "/dev/sdb", "--verbose"]
        ),
        other => panic!("unexpected {:?}", other),
    }
}

#[test]
fn bad_block_sizes_stop_before_validation() {
    let mut o = options();
    o.block_size = "0".to_string();
    let (s, _) = next_step(&o, RunState::Start, RunEvent::Begin);
    let (s, _) = next_step(&o, s, RunEvent::SourceResolved("/abs/os.iso".to_string()));
    let (s, a) = next_step(&o, s, RunEvent::PrivilegeChecked(true));
    assert!(matches!(s, RunState::Failed));
    assert!(matches!(a, RunAction::Fail(ref m) if m == "Block size must be greater than zero"));
}

#[test]
fn outside_failures_stop_the_run() {
    let o = options();
    let s = validated(&o);
    let (s, a) = next_step(&o, s, RunEvent::OutsideFailure("no such device".to_string()));
    assert!(matches!(s, RunState::Failed));
    assert!(matches!(a, RunAction::Fail(ref m) if m == "no such device"));
}

#[test]
fn unexpected_reports_are_failures() {
    let o = options();
    let (s, a) = next_step(&o, RunState::Start, RunEvent::WriteDone);
    assert!(matches!(s, RunState::Failed));
    assert!(matches!(a, RunAction::Fail(ref m) if m == "Unexpected report for the current step of the run"));
    let (s, a) = next_step(&o, RunState::Finished, RunEvent::WriteDone);
    assert!(matches!(s, RunState::Failed));
    assert!(matches!(a, RunAction::Fail(_)));
    let (_, a) = next_step(&o, RunState::Writing, RunEvent::ValidationPassed(1));
    assert!(matches!(a, RunAction::Fail(_)));
}
