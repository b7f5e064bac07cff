use ponte::openwiki::{
    finish_run, mode_flag, openwiki_args, plan_invoke, run_mode, stdout_tail, InvokePlan,
    OpenWikiError, OpenWikiOutcome, RunMode, STDOUT_TAIL_CHARS,
};

#[test]
fn skips_subprocess_when_upstream_unchanged() {
    let plan = plan_invoke(Some(false)).unwrap();
    assert!(matches!(plan, InvokePlan::Done(OpenWikiOutcome::Skipped)));
}

#[test]
fn errors_when_upstream_outcome_missing() {
    let err = plan_invoke(None).unwrap_err();
    assert!(matches!(err, OpenWikiError::MissingUpstreamOutcome));
}

#[test]
fn runs_when_upstream_changed() {
    assert!(matches!(plan_invoke(Some(true)).unwrap(), InvokePlan::Run));
}

#[test]
fn init_mode_when_no_openwiki_dir() {
    let mode = run_mode(false);
    assert_eq!(mode, RunMode::Init);
    match finish_run(mode, true, 0, b"--init --print\n").unwrap() {
        OpenWikiOutcome::Ran { mode, .. } => assert_eq!(mode, RunMode::Init),
        OpenWikiOutcome::Skipped => panic!("expected Ran"),
    }
}

#[test]
fn update_mode_when_openwiki_dir_exists() {
    let mode = run_mode(true);
    assert_eq!(mode, RunMode::Update);
    match finish_run(mode, true, 0, b"--update --print\n").unwrap() {
        OpenWikiOutcome::Ran { mode, .. } => assert_eq!(mode, RunMode::Update),
        OpenWikiOutcome::Skipped => panic!("expected Ran"),
    }
}

#[test]
fn nonzero_exit_surfaces_as_error() {
    // Wait status of a process that exited with code 1.
    let err = finish_run(RunMode::Init, false, 1 << 8, b"").unwrap_err();
    assert!(matches!(err, OpenWikiError::NonZeroExit(256)));
}

#[test]
fn flags_and_args() {
    assert_eq!(mode_flag(RunMode::Init), "--init");
    assert_eq!(mode_flag(RunMode::Update), "--update");
    assert_eq!(openwiki_args(RunMode::Update), vec!["--update", "--print"]);
}

#[test]
fn short_output_is_kept_whole() {
    assert_eq!(stdout_tail("done\n"), "done\n");
    assert_eq!(stdout_tail(""), "");
}

#[test]
fn long_output_keeps_last_chars() {
    let mut s = String::from("HEAD");
    s.push_str(&"\u{e9}".repeat(STDOUT_TAIL_CHARS));
    let tail = stdout_tail(&s);
    assert_eq!(tail.chars().count(), STDOUT_TAIL_CHARS);
    assert_eq!(tail, "\u{e9}".repeat(STDOUT_TAIL_CHARS));
    let mut t = "x".repeat(10);
    t.push_str(&"y".repeat(1999));
    assert_eq!(stdout_tail(&t), format!("x{}", "y".repeat(1999)));
}

#[test]
fn finish_run_reads_output_lossily() {
    match finish_run(RunMode::Init, true, 0, &[b'o', b'k', 0xff]).unwrap() {
        OpenWikiOutcome::Ran { stdout_tail, .. } => assert_eq!(stdout_tail, "ok\u{fffd}"),
        OpenWikiOutcome::Skipped => panic!("expected Ran"),
    }
    match finish_run(RunMode::Init, true, 0, "caf\u{e9}".as_bytes()).unwrap() {
        OpenWikiOutcome::Ran { stdout_tail, .. } => assert_eq!(stdout_tail, "caf\u{e9}"),
        OpenWikiOutcome::Skipped => panic!("expected Ran"),
    }
}

#[test]
fn signal_exit_keeps_wait_status() {
    // Wait status of a process killed by signal 9.
    assert!(matches!(
        finish_run(RunMode::Update, false, 9, b"partial").unwrap_err(),
        OpenWikiError::NonZeroExit(9)
    ));
}
