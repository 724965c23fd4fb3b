use forksmith::config::{Config, ForkSection, RawConfig};
use forksmith::engines::{raw_diff_args, raw_diff_result, rule_paths, EngineError, EngineResult};
use forksmith::fs_config::{BuildSection, ForksmithConfig, RawForksmithConfig, RepoSection};
use forksmith::git::CommandError;
use forksmith::launch::{append_default_cwd_arg, contains_cwd_flag, needs_update};
use forksmith::registry::{EngineKind, PatchRegistry, PatchSet};
use forksmith::update::{build_skip, PatchPhase, UpdateSummary};

fn patch(id: &str, enabled: bool) -> PatchSet {
    PatchSet {
        id: id.to_string(),
        description: String::new(),
        engine: EngineKind::Patch,
        enabled,
        rules: vec![],
        tags: vec![],
        engine_confidence_bits: None,
        last_applied_commit: None,
        last_match_count: None,
        last_status: None,
        last_run_ts: None,
    }
}

#[test]
fn disabled_patch_set_is_skipped_without_engine() {
    let registry = PatchRegistry { version: 1, generated_by: "t".into(), patch_sets: vec![patch("p1", false), patch("p2", true)] };
    let summary = UpdateSummary::new(false, None, Some("abc".into()), vec![]);
    let mut phase = PatchPhase::new(registry, "abc".into(), summary);
    let next = phase.next_enabled();
    assert_eq!(next, Some(1));
    assert_eq!(phase.summary.patch_reports.len(), 1);
    assert_eq!(phase.summary.patch_reports[0].id, "p1");
    assert_eq!(phase.summary.patch_reports[0].status, "skipped (disabled)");
    assert_eq!(phase.summary.patch_reports[0].engine, "Patch");
    assert_eq!(phase.summary.patch_reports[0].matches, None);
    phase.record_result(&EngineResult { matches: Some(2), status: "applied".into() });
    assert_eq!(phase.next_enabled(), None);
    assert_eq!(phase.summary.patch_reports[1].status, "applied");
    let p2 = phase.registry.get("p2").unwrap();
    assert_eq!(p2.last_status.as_deref(), Some("applied: 2 matches"));
    assert_eq!(p2.last_applied_commit.as_deref(), Some("abc"));
    assert!(phase.registry.get("p1").unwrap().last_status.is_none());
}

#[test]
fn empty_registry_gives_empty_report() {
    let registry = PatchRegistry::load_or_init(None);
    assert_eq!(registry.version, 1);
    let mut phase = PatchPhase::new(registry, "c".into(), UpdateSummary::new(true, None, None, vec![]));
    assert_eq!(phase.next_enabled(), None);
    phase.record_build(build_skip(true, false), None);
    assert!(phase.summary.patch_reports.is_empty());
    assert_eq!(phase.summary.build_status.as_deref(), Some("skipped (dry-run)"));
}

#[test]
fn build_outcomes() {
    assert_eq!(build_skip(false, true).as_deref(), Some("skipped (--skip-build)"));
    assert_eq!(build_skip(false, false), None);
    let mut phase = PatchPhase::new(PatchRegistry::load_or_init(None), "c".into(), UpdateSummary::new(false, None, None, vec![]));
    phase.record_build(None, Some(Err(CommandError { command: "cargo build --release".into(), detail: "boom".into() })));
    assert_eq!(phase.summary.build_status.as_deref(), Some("failed: cargo build --release failed: boom"));
    phase.record_build(None, Some(Ok(())));
    assert_eq!(phase.summary.build_status.as_deref(), Some("succeeded"));
}

#[test]
fn dry_run_and_apply_count_alike() {
    let rules = vec!["a.diff".to_string(), "b.diff".to_string()];
    let outcomes = vec![Ok(()), Ok(())];
    let dry = raw_diff_result(&rules, &outcomes, true).unwrap();
    let wet = raw_diff_result(&rules, &outcomes, false).unwrap();
    assert_eq!(dry.matches, Some(2));
    assert_eq!(dry.matches, wet.matches);
    assert_eq!(dry.status, "dry-run");
    assert_eq!(wet.status, "applied");
    assert_eq!(raw_diff_args(true), vec!["apply", "--3way", "--allow-empty", "--whitespace=nowarn", "--check"]);
    assert_eq!(raw_diff_args(false).len(), 4);
}

#[test]
fn failing_rule_fails_the_set() {
    let rules = vec!["a.diff".to_string(), "b.diff".to_string()];
    let e = CommandError { command: "git apply".into(), detail: "does not apply".into() };
    let outcomes = vec![Ok(()), Err(e)];
    match raw_diff_result(&rules, &outcomes, false) {
        Err(EngineError::RuleFailed { rule, error }) => {
            assert_eq!(rule, "b.diff");
            assert_eq!(error.detail, "does not apply");
        }
        other => panic!("{:?}", other),
    }
}

#[test]
fn rule_paths_resolve_under_root() {
    let rules = vec!["patches/a.diff".to_string(), "/abs/b.diff".to_string()];
    assert_eq!(rule_paths("/ws", &rules), vec!["/ws/patches/a.diff", "/abs/b.diff"]);
    assert_eq!(rule_paths("/ws/", &rules)[0], "/ws/patches/a.diff");
}

#[test]
fn config_defaults() {
    let cfg = Config::from_raw(&RawConfig::default());
    assert_eq!(cfg.vendor_root, "vendor/codex");
    assert_eq!(cfg.vendor_branch, "main");
    assert!(!cfg.fork.enabled);
    assert_eq!(cfg.fork.upstream_remote, "upstream");
    assert_eq!(cfg.fork.local_remote, "origin");
    assert!(cfg.fork.require_clean_worktree);
    assert!(cfg.fork.auto_stash_before_merge);
    assert_eq!(cfg.vendor_dir("/ws"), "/ws/vendor/codex");
    assert_eq!(cfg.registry_path("/ws"), "/ws/patch-registry/registry.json");
    let mut raw = RawConfig::default();
    raw.vendor.branch = Some("dev".into());
    raw.fork = ForkSection { local_branch: Some("fork".into()), ..Default::default() };
    let cfg = Config::from_raw(&raw);
    assert_eq!(cfg.fork.upstream_branch, "dev");
    assert_eq!(cfg.fork.local_branch, "fork");
}

#[test]
fn control_plane_config_defaults() {
    let cfg = ForksmithConfig::load_default(&RawForksmithConfig::default());
    assert_eq!(cfg.workspace_root, ".");
    assert_eq!(cfg.repo_path, "./vendor/codex");
    assert_eq!(cfg.build_workspace, "./vendor/codex/codex-rs");
    assert_eq!(cfg.repo_binary_path(), "./vendor/codex/codex-rs/target/release/codex");
    let raw = RawForksmithConfig {
        workspace: None,
        repo: Some(RepoSection { path: Some("/srv/codex".into()), ..Default::default() }),
        build: Some(BuildSection { profile: Some("dev".into()), ..Default::default() }),
    };
    let cfg = ForksmithConfig::from_raw("/etc", &raw);
    assert_eq!(cfg.workspace_root, "/etc/.");
    assert_eq!(cfg.repo_path, "/srv/codex");
    assert_eq!(cfg.build_profile, "dev");
}

#[test]
fn cwd_flag_handling() {
    let args = vec!["--cd=/tmp".to_string()];
    assert!(contains_cwd_flag(&args));
    assert_eq!(append_default_cwd_arg(&args, "/home"), args);
    let args = vec!["exec".to_string(), "x".to_string()];
    assert!(!contains_cwd_flag(&args));
    assert_eq!(append_default_cwd_arg(&args, "/home"), vec!["-C", "/home", "exec", "x"]);
    assert!(contains_cwd_flag(&vec!["-C".to_string()]));
    assert!(!contains_cwd_flag(&vec!["--cdx".to_string()]));
}

#[test]
fn update_due_after_interval() {
    assert!(needs_update(None, 10));
    assert!(!needs_update(Some(10_000), 10));
    assert!(needs_update(Some(10_001), 10));
    assert!(needs_update(Some(u128::MAX), u64::MAX));
}
