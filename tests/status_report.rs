use forksmith::status::{run, StatusReport};

fn sample_report() -> StatusReport {
    StatusReport {
        workspace_root: ".".into(),
        repo: "vendor/codex".into(),
        build_dir: "vendor/codex/codex-rs".into(),
        branch: "main".into(),
        head: "deadbeef".into(),
        clean: true,
        has_conflicts: false,
        tracked_count: 0,
        untracked_count: 0,
        local_ref: "origin/main".into(),
        upstream_ref: "upstream/main".into(),
        local_ahead: 0,
        local_behind: 0,
        upstream_ahead: 0,
        upstream_behind: 0,
        binary_path: "codex-rs/target/release/codex".into(),
        binary_exists: true,
    }
}

#[test]
fn status_report_flags_failures() {
    let mut report = sample_report();
    assert!(!report.should_fail());
    report.has_conflicts = true;
    assert!(report.should_fail());
    report.has_conflicts = false;
    report.binary_exists = false;
    assert!(report.should_fail());
}

#[test]
fn status_run_fails_only_on_bad_state() {
    let mut report = sample_report();
    assert!(run(&report).is_ok());
    report.has_conflicts = true;
    assert!(run(&report).is_err());
}
