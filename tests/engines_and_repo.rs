use forksmith::engines::{
    ast_outcome, cocci_rule, missing_tool_result, semantic_result, structural_result, AstMode, AstRunOutcome,
    AstRunSummary, CocciRuleReport, CocciSummary,
};
use forksmith::fs_config::{ForksmithConfig, RawForksmithConfig};
use forksmith::git::{CommandError, CommandOutput};
use forksmith::repo::{has_remote, has_unmerged_paths, status_counts};
use forksmith::status::{RepoFacts, StatusReport};

fn output(success: bool, stdout: &str, stderr: &str) -> CommandOutput {
    CommandOutput { success, code: Some(if success { 0 } else { 2 }), stdout: stdout.into(), stderr: stderr.into() }
}

fn preview(stdout: &str) -> AstRunOutcome {
    AstRunOutcome::Applied(AstRunSummary { mode: AstMode::DryRun, stdout: stdout.into(), stderr: String::new(), duration_ms: 3 })
}

#[test]
fn structural_counts_preview_lines_in_both_modes() {
    let p = preview("{\"a\":1}\n{\"b\":2}\n{\"c\":3}\n");
    let dry = structural_result(&p, &None, true);
    let wet = structural_result(&p, &Some(preview("")), false);
    assert_eq!(dry.matches, Some(3));
    assert_eq!(wet.matches, Some(3));
    assert_eq!(dry.status, "dry-run");
    assert_eq!(wet.status, "applied");
    let skipped_apply = structural_result(&p, &Some(AstRunOutcome::Skipped { reason: "ast-grep exit exit status: 1".into() }), false);
    assert_eq!(skipped_apply.status, "skipped: ast-grep exit exit status: 1");
}

#[test]
fn structural_skip_records_reason() {
    let r = structural_result(&AstRunOutcome::Skipped { reason: "rule config r.yml missing".into() }, &None, false);
    assert_eq!(r.matches, None);
    assert_eq!(r.status, "skipped: rule config r.yml missing");
}

#[test]
fn ast_outcomes() {
    match ast_outcome(false, true, "r.yml", "t", output(true, "", ""), "", AstMode::DryRun, 0) {
        AstRunOutcome::Skipped { reason } => assert_eq!(reason, "rule config r.yml missing"),
        other => panic!("{:?}", other),
    }
    match ast_outcome(true, false, "r.yml", "t", output(true, "", ""), "", AstMode::DryRun, 0) {
        AstRunOutcome::Skipped { reason } => assert_eq!(reason, "target t missing"),
        other => panic!("{:?}", other),
    }
    match ast_outcome(true, true, "r.yml", "t", output(false, "", "x"), "exit status: 2", AstMode::Apply, 0) {
        AstRunOutcome::Skipped { reason } => assert_eq!(reason, "ast-grep exit exit status: 2"),
        other => panic!("{:?}", other),
    }
    match ast_outcome(true, true, "r.yml", "t", output(true, "m\n", ""), "", AstMode::Apply, 9) {
        AstRunOutcome::Applied(s) => {
            assert_eq!(s.mode, AstMode::Apply);
            assert_eq!(s.stdout, "m\n");
            assert_eq!(s.duration_ms, 9);
        }
        other => panic!("{:?}", other),
    }
}

#[test]
fn missing_tool_skips() {
    let r = missing_tool_result("ast-grep");
    assert_eq!(r.matches, None);
    assert_eq!(r.status, "skipped: ast-grep not found");
}

#[test]
fn semantic_rules_counted_independently() {
    assert!(cocci_rule("rules/a.cocci"));
    assert!(!cocci_rule("rules/.cocci"));
    assert!(!cocci_rule("rules/a.patch"));
    let rule = |name: &str, success: bool| CocciRuleReport {
        rule: name.into(),
        exit_code: Some(if success { 0 } else { 1 }),
        stdout: String::new(),
        stderr: String::new(),
        success,
    };
    let summary = CocciSummary { reports: vec![rule("a.cocci", true), rule("b.cocci", false), rule("c.cocci", true)] };
    let r = semantic_result(&summary);
    assert_eq!(r.matches, None);
    assert_eq!(r.status, "semantic patches: 2 of 3 rules succeeded");
}

#[test]
fn remote_listing() {
    assert!(has_remote(&output(true, "origin\nupstream\n", ""), "upstream").unwrap());
    assert!(has_remote(&output(true, "  origin \r\nupstream", ""), "origin").unwrap());
    assert!(!has_remote(&output(true, "origin\nupstream2\n", ""), "upstream").unwrap());
    assert!(!has_remote(&output(true, "", ""), "origin").unwrap());
    assert_eq!(has_remote(&output(false, "", "fatal"), "origin").unwrap_err().command, "git remote");
}

#[test]
fn unmerged_and_porcelain() {
    assert!(has_unmerged_paths(&output(true, "src/a.rs\n", "")).unwrap());
    assert!(!has_unmerged_paths(&output(true, "\n", "")).unwrap());
    assert_eq!(status_counts(" M a.rs\n?? b.rs\n?? c/\nA  d.rs\n"), (2, 2));
    assert_eq!(status_counts(""), (0, 0));
    assert_eq!(status_counts("?"), (1, 0));
}

#[test]
fn status_gather_zeroes_unreadable_counts() {
    let cfg = ForksmithConfig::from_raw("/w", &RawForksmithConfig::default());
    let facts = RepoFacts {
        branch: "main".into(),
        head: "abc".into(),
        clean: false,
        has_conflicts: false,
        tracked_count: 1,
        untracked_count: 2,
        local: Ok((1, 4)),
        upstream: Err(CommandError { command: "git rev-list".into(), detail: "bad revision".into() }),
        binary_exists: true,
    };
    let (report, warnings) = StatusReport::gather(&cfg, facts);
    assert_eq!(report.local_ref, "origin/main");
    assert_eq!(report.upstream_ref, "upstream/main");
    assert_eq!((report.local_ahead, report.local_behind), (1, 4));
    assert_eq!((report.upstream_ahead, report.upstream_behind), (0, 0));
    assert_eq!(report.repo, "/w/./vendor/codex");
    assert_eq!(report.binary_path, "/w/./vendor/codex/codex-rs/target/release/codex");
    assert_eq!(warnings, vec!["unable to compute divergence for upstream/main: git rev-list failed: bad revision".to_string()]);
    assert!(!report.should_fail());
}

#[test]
fn control_plane_sync_decisions() {
    assert_eq!(forksmith::repo::sync_check(false, false), forksmith::repo::SyncCheck::Refuse);
    assert_eq!(forksmith::repo::sync_check(true, false), forksmith::repo::SyncCheck::ProceedDirty);
    assert_eq!(forksmith::repo::sync_check(false, true), forksmith::repo::SyncCheck::Proceed);
    assert!(forksmith::repo::fast_forward_due(false, 2));
    assert!(!forksmith::repo::fast_forward_due(true, 2));
    assert!(!forksmith::repo::fast_forward_due(false, 0));
    let fetched = vec!["origin".to_string(), "upstream".to_string()];
    assert_eq!(
        forksmith::repo::sync_result_line(false, &fetched, true, 1, 5),
        "SYNC_RESULT dry_run=false fetched=origin,upstream ff_applied=true behind_local=1 behind_upstream=0"
    );
    assert_eq!(
        forksmith::repo::sync_result_line(true, &vec![], false, 0, 5),
        "SYNC_RESULT dry_run=true fetched= ff_applied=false behind_local=0 behind_upstream=5"
    );
}
