use forksmith::registry::{derive_status, EngineKind, PatchRegistry, PatchSet, PatchSetTemplate, RegistryError};

fn patch(id: &str, enabled: bool) -> PatchSet {
    PatchSet {
        id: id.to_string(),
        description: format!("patch {id}"),
        engine: EngineKind::Patch,
        enabled,
        rules: vec![format!("patches/{id}.diff")],
        tags: vec![],
        engine_confidence_bits: None,
        last_applied_commit: None,
        last_match_count: None,
        last_status: None,
        last_run_ts: None,
    }
}

#[test]
fn degraded_status_names_previous_count() {
    let s = derive_status(Some(7), Some(0), "applied");
    assert_eq!(s, "degraded: 0 matches (previously 7)");
    assert!(s.contains("degraded"));
    assert!(s.contains("7"));
}

#[test]
fn zero_matches_without_history_is_no_matches() {
    assert_eq!(derive_status(None, Some(0), "applied"), "no-matches");
    assert_eq!(derive_status(Some(0), Some(0), "applied"), "no-matches");
}

#[test]
fn positive_count_is_applied() {
    assert_eq!(derive_status(Some(0), Some(12), "x"), "applied: 12 matches");
    assert_eq!(derive_status(None, Some(4294967295), "x"), "applied: 4294967295 matches");
}

#[test]
fn no_count_keeps_engine_outcome() {
    assert_eq!(derive_status(Some(3), None, "dry-run"), "dry-run");
}

#[test]
fn absent_registry_initialises_empty() {
    let r = PatchRegistry::load_or_init(None);
    assert_eq!(r.version, 1);
    assert_eq!(r.generated_by, "codex-forksmith 0.5.0");
    assert!(r.list().is_empty());
}

#[test]
fn stored_registry_is_kept() {
    let stored = PatchRegistry { version: 3, generated_by: "x".into(), patch_sets: vec![patch("a", true)] };
    let r = PatchRegistry::load_or_init(Some(stored));
    assert_eq!(r.version, 3);
    assert_eq!(r.list().len(), 1);
}

#[test]
fn update_after_run_records_history() {
    let mut r = PatchRegistry { version: 1, generated_by: "t".into(), patch_sets: vec![patch("a", true), patch("b", true)] };
    r.update_after_run_at("b", "abc123", Some(5), "applied", "2024-01-01T00:00:00Z");
    let b = r.get("b").unwrap();
    assert_eq!(b.last_applied_commit.as_deref(), Some("abc123"));
    assert_eq!(b.last_match_count, Some(5));
    assert_eq!(b.last_status.as_deref(), Some("applied: 5 matches"));
    assert_eq!(b.last_run_ts.as_deref(), Some("2024-01-01T00:00:00Z"));
    assert!(r.get("a").unwrap().last_status.is_none());
    r.update_after_run_at("b", "def456", Some(0), "applied", "2024-01-02T00:00:00Z");
    assert_eq!(r.get("b").unwrap().last_status.as_deref(), Some("degraded: 0 matches (previously 5)"));
}

#[test]
fn update_after_run_stamps_with_clock() {
    let mut r = PatchRegistry { version: 1, generated_by: "t".into(), patch_sets: vec![patch("a", true)] };
    r.update_after_run("a", "c", None, "skipped");
    let a = r.get("a").unwrap();
    let ts = a.last_run_ts.as_deref().unwrap();
    assert_ne!(ts, "unknown");
    assert!(ts.contains('T'));
    assert_eq!(a.last_status.as_deref(), Some("skipped"));
}

#[test]
fn update_of_unknown_id_changes_nothing() {
    let mut r = PatchRegistry { version: 1, generated_by: "t".into(), patch_sets: vec![patch("a", true)] };
    r.update_after_run_at("zzz", "c", Some(1), "applied", "now");
    assert!(r.get("a").unwrap().last_status.is_none());
}

#[test]
fn toggle_sets_enabled_or_reports_missing() {
    let mut r = PatchRegistry { version: 1, generated_by: "t".into(), patch_sets: vec![patch("a", true)] };
    assert!(r.toggle("a", false).is_ok());
    assert!(!r.get("a").unwrap().enabled);
    let err = r.toggle("nope", true).unwrap_err();
    assert_eq!(err, RegistryError::NotFound { id: "nope".into() });
    assert_eq!(err.message(), "patch set nope not found");
}

#[test]
fn template_becomes_enabled_patch_set() {
    let t = PatchSetTemplate { id: "p".into(), description: "d".into(), rules: vec!["r".into()], tags: vec!["t".into()] };
    let p = t.into_patch_set();
    assert!(p.enabled);
    assert_eq!(p.id, "p");
    assert_eq!(p.rules, vec!["r".to_string()]);
    assert!(p.last_match_count.is_none());
}

#[test]
fn ensure_patch_set_inserts_in_id_order() {
    let mut r = PatchRegistry { version: 1, generated_by: "t".into(), patch_sets: vec![patch("alpha", true), patch("gamma", false)] };
    let t = |id: &str| PatchSetTemplate { id: id.into(), description: "new".into(), rules: vec![], tags: vec![] };
    assert_eq!(r.ensure_patch_set(t("beta")), 1);
    let ids: Vec<&str> = r.list().iter().map(|p| p.id.as_str()).collect();
    assert_eq!(ids, vec!["alpha", "beta", "gamma"]);
    assert_eq!(r.ensure_patch_set(t("gamma")), 2);
    assert!(!r.get("gamma").unwrap().enabled);
    assert_eq!(r.list().len(), 3);
    assert_eq!(r.ensure_patch_set(t("zeta")), 3);
    assert_eq!(r.ensure_patch_set(t("a")), 0);
    assert!(forksmith::registry::id_less("ab", "b"));
    assert!(!forksmith::registry::id_less("b", "b"));
    assert!(forksmith::registry::id_less("b", "bb"));
}
