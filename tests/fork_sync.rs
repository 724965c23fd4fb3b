use forksmith::config::ForkConfig;
use forksmith::git::{CommandError, CommandOutput};
use forksmith::sync::{ForkSync, GitOp, GitReply, Step, SyncError};

fn policy() -> ForkConfig {
    ForkConfig {
        enabled: true,
        upstream_remote: "upstream".into(),
        upstream_branch: "main".into(),
        local_remote: "origin".into(),
        local_branch: "main".into(),
        require_clean_worktree: true,
        abort_on_divergence: true,
        auto_merge_upstream: true,
        auto_stash_before_merge: true,
        auto_merge_local: false,
        auto_route_upstream: false,
        merge_strategy: Some("recursive".into()),
        merge_strategy_option: Some("theirs".into()),
        silence_local_ahead_warning: false,
    }
}

fn err(command: &str, detail: &str) -> CommandError {
    CommandError { command: command.into(), detail: detail.into() }
}

fn expect_run(step: Step) -> GitOp {
    match step {
        Step::Run(op) => op,
        Step::Finished(r) => panic!("finished early: {:?}", r),
    }
}

/// Drives the synchronizer up to the upstream divergence query.
fn to_upstream_divergence(p: ForkConfig) -> ForkSync {
    let (mut s, step) = ForkSync::new(p);
    assert!(matches!(expect_run(step), GitOp::CurrentBranch));
    assert!(matches!(expect_run(s.resume(GitReply::Branch("main".into()))), GitOp::IsClean));
    match expect_run(s.resume(GitReply::Clean(true))) {
        GitOp::Fetch { remote } => assert_eq!(remote, "origin"),
        other => panic!("{:?}", other),
    }
    match expect_run(s.resume(GitReply::Done)) {
        GitOp::Fetch { remote } => assert_eq!(remote, "upstream"),
        other => panic!("{:?}", other),
    }
    match expect_run(s.resume(GitReply::Done)) {
        GitOp::Divergence { target } => assert_eq!(target, "origin/main"),
        other => panic!("{:?}", other),
    }
    match expect_run(s.resume(GitReply::Counts(0, 0))) {
        GitOp::Divergence { target } => assert_eq!(target, "upstream/main"),
        other => panic!("{:?}", other),
    }
    s
}

#[test]
fn strategy_merge_after_failed_fast_forward_is_reported() {
    let mut s = to_upstream_divergence(policy());
    assert!(matches!(expect_run(s.resume(GitReply::Counts(0, 3))), GitOp::IsClean));
    match expect_run(s.resume(GitReply::Clean(true))) {
        GitOp::MergeFfOnly { target } => assert_eq!(target, "upstream/main"),
        other => panic!("{:?}", other),
    }
    let ff = err("git merge --ff-only upstream/main", "fatal: Not possible to fast-forward, aborting.");
    match expect_run(s.resume(GitReply::Failed(ff))) {
        GitOp::MergeWithStrategy { target, strategy, strategy_option } => {
            assert_eq!(target, "upstream/main");
            assert_eq!(strategy.as_deref(), Some("recursive"));
            assert_eq!(strategy_option.as_deref(), Some("theirs"));
        }
        other => panic!("{:?}", other),
    }
    match s.resume(GitReply::Done) {
        Step::Finished(Ok(warnings)) => {
            assert_eq!(warnings.len(), 1);
            assert_eq!(
                warnings[0],
                "Merged upstream/main using -s recursive (-X theirs) after --ff-only failed: \
                 git merge --ff-only upstream/main failed: fatal: Not possible to fast-forward, aborting."
            );
            assert!(warnings[0].contains("recursive"));
            assert!(warnings[0].contains("Not possible to fast-forward"));
        }
        other => panic!("{:?}", other),
    }
}

#[test]
fn not_behind_never_merges() {
    let mut s = to_upstream_divergence(policy());
    match s.resume(GitReply::Counts(2, 0)) {
        Step::Finished(Ok(w)) => {
            assert_eq!(w, vec!["Local branch carries 2 commit(s) not yet in upstream/main.".to_string()]);
        }
        other => panic!("{:?}", other),
    }
}

#[test]
fn local_ahead_only_warns() {
    let (mut s, _) = ForkSync::new(policy());
    s.resume(GitReply::Branch("main".into()));
    s.resume(GitReply::Clean(true));
    s.resume(GitReply::Done);
    s.resume(GitReply::Done);
    assert!(matches!(expect_run(s.resume(GitReply::Counts(4, 0))), GitOp::Divergence { .. }));
    match s.resume(GitReply::Counts(0, 0)) {
        Step::Finished(Ok(w)) => assert_eq!(
            w,
            vec!["Local branch is ahead of origin/main by 4 commit(s); remember to push after the run.".to_string()]
        ),
        other => panic!("{:?}", other),
    }
}

#[test]
fn stash_is_popped_even_when_merge_fails() {
    let mut s = to_upstream_divergence(policy());
    s.resume(GitReply::Counts(0, 1));
    match expect_run(s.resume(GitReply::Clean(false))) {
        GitOp::StashPush { include_untracked, message } => {
            assert!(include_untracked);
            assert_eq!(message, "codex-forksmith auto-merge backup");
        }
        other => panic!("{:?}", other),
    }
    assert!(matches!(expect_run(s.resume(GitReply::Stashed(true))), GitOp::MergeFfOnly { .. }));
    let ff = err("git merge --ff-only upstream/main", "diverged");
    assert!(matches!(expect_run(s.resume(GitReply::Failed(ff))), GitOp::MergeWithStrategy { .. }));
    let fallback = err("git merge upstream/main", "CONFLICT");
    assert!(matches!(expect_run(s.resume(GitReply::Failed(fallback))), GitOp::MergeAbort));
    assert!(matches!(expect_run(s.resume(GitReply::Done)), GitOp::StashPop));
    match s.resume(GitReply::Done) {
        Step::Finished(Err(SyncError::MergeFailed { fallback, fast_forward })) => {
            assert_eq!(fallback.detail, "CONFLICT");
            assert_eq!(fast_forward.detail, "diverged");
        }
        other => panic!("{:?}", other),
    }
}

#[test]
fn stash_is_popped_after_fast_forward() {
    let mut s = to_upstream_divergence(policy());
    s.resume(GitReply::Counts(0, 2));
    s.resume(GitReply::Clean(false));
    s.resume(GitReply::Stashed(true));
    assert!(matches!(expect_run(s.resume(GitReply::Done)), GitOp::StashPop));
    match s.resume(GitReply::Failed(err("git stash pop --index", "conflict"))) {
        Step::Finished(Ok(w)) => {
            assert_eq!(w[0], "Fast-forwarded to upstream/main (2 commit(s)).");
            assert_eq!(
                w[1],
                "Auto-merge completed but reapplying stashed changes failed: git stash pop --index failed: conflict. Run `git stash pop --index` manually."
            );
        }
        other => panic!("{:?}", other),
    }
}

#[test]
fn routed_upstream_skips_merge() {
    let mut p = policy();
    p.auto_route_upstream = true;
    let mut s = to_upstream_divergence(p);
    s.resume(GitReply::Counts(0, 1));
    s.resume(GitReply::Clean(true));
    match s.resume(GitReply::Failed(err("git merge --ff-only upstream/main", "no"))) {
        Step::Finished(Ok(w)) => assert_eq!(
            w,
            vec!["Skipping upstream/main because fast-forward failed (git merge --ff-only upstream/main failed: no). Leaving vendor/codex on its previous commit so the build can continue.".to_string()]
        ),
        other => panic!("{:?}", other),
    }
}

#[test]
fn wrong_branch_is_fatal() {
    let (mut s, _) = ForkSync::new(policy());
    match s.resume(GitReply::Branch("feature".into())) {
        Step::Finished(Err(SyncError::WrongBranch { expected, actual })) => {
            assert_eq!(expected, "main");
            assert_eq!(actual, "feature");
        }
        other => panic!("{:?}", other),
    }
}

#[test]
fn dirty_tree_is_fatal_when_clean_required() {
    let (mut s, _) = ForkSync::new(policy());
    s.resume(GitReply::Branch("main".into()));
    assert!(matches!(s.resume(GitReply::Clean(false)), Step::Finished(Err(SyncError::DirtyWorktree))));
}

#[test]
fn local_behind_aborts_or_warns() {
    let mut p = policy();
    p.require_clean_worktree = false;
    p.upstream_remote = "origin".into();
    let (mut s, _) = ForkSync::new(p.clone());
    s.resume(GitReply::Branch("main".into()));
    match expect_run(s.resume(GitReply::Done)) {
        GitOp::Divergence { target } => assert_eq!(target, "origin/main"),
        other => panic!("{:?}", other),
    }
    match s.resume(GitReply::Counts(0, 5)) {
        Step::Finished(Err(SyncError::LocalBehind { tracking_ref, behind })) => {
            assert_eq!(tracking_ref, "origin/main");
            assert_eq!(behind, 5);
        }
        other => panic!("{:?}", other),
    }
    p.abort_on_divergence = false;
    let (mut s, _) = ForkSync::new(p);
    s.resume(GitReply::Branch("main".into()));
    s.resume(GitReply::Done);
    s.resume(GitReply::Counts(0, 5));
    match s.resume(GitReply::Failed(err("git rev-list --left-right --count HEAD...origin/main", "bad"))) {
        Step::Finished(Ok(w)) => {
            assert_eq!(w[0], "origin/main is ahead by 5 commit(s). Pull or merge `origin/main` before running the updater.");
            assert_eq!(w[1], "Unable to compute divergence against origin/main: git rev-list --left-right --count HEAD...origin/main failed: bad");
        }
        other => panic!("{:?}", other),
    }
}

#[test]
fn unexpected_reply_is_refused() {
    let (mut s, _) = ForkSync::new(policy());
    assert!(matches!(s.resume(GitReply::Done), Step::Finished(Err(SyncError::UnexpectedReply))));
}

#[test]
fn op_arguments() {
    let op = GitOp::Divergence { target: "upstream/main".into() };
    assert_eq!(op.args(), vec!["rev-list", "--left-right", "--count", "HEAD...upstream/main"]);
    let op = GitOp::MergeWithStrategy { target: "u/m".into(), strategy: Some("ort".into()), strategy_option: None };
    assert_eq!(op.args(), vec!["merge", "--no-edit", "-s", "ort", "u/m"]);
    let op = GitOp::StashPush { include_untracked: true, message: "m".into() };
    assert_eq!(op.args(), vec!["stash", "push", "--include-untracked", "-m", "m"]);
    assert_eq!(GitOp::StashPop.args(), vec!["stash", "pop", "--index"]);
}

fn output(success: bool, stdout: &str, stderr: &str) -> CommandOutput {
    CommandOutput { success, code: Some(if success { 0 } else { 1 }), stdout: stdout.into(), stderr: stderr.into() }
}

#[test]
fn op_replies() {
    let op = GitOp::Divergence { target: "o/m".into() };
    assert!(matches!(op.reply(&output(true, "3\t7\n", "")), GitReply::Counts(3, 7)));
    match op.reply(&output(true, "x y", "")) {
        GitReply::Failed(e) => assert_eq!(e.detail, "unexpected output: x y"),
        other => panic!("{:?}", other),
    }
    match GitOp::CurrentBranch.reply(&output(true, "  main\n", "")) {
        GitReply::Branch(b) => assert_eq!(b, "main"),
        other => panic!("{:?}", other),
    }
    assert!(matches!(GitOp::IsClean.reply(&output(true, " M a.rs\n", "")), GitReply::Clean(false)));
    let push = GitOp::StashPush { include_untracked: true, message: "m".into() };
    assert!(matches!(push.reply(&output(true, "No local changes to save\n", "")), GitReply::Stashed(false)));
    assert!(matches!(push.reply(&output(true, "Saved working directory\n", "")), GitReply::Stashed(true)));
    match GitOp::StashPop.reply(&output(false, "", "conflict")) {
        GitReply::Failed(e) => assert_eq!(e.message(), "git stash pop --index failed: conflict"),
        other => panic!("{:?}", other),
    }
}
