//! The fork synchronizer. It decides, one version-control command at a time,
//! how to bring `HEAD` in step with the fork-of-record branch and with
//! upstream; the caller runs each command and hands back its reply.
use vstd::prelude::*;
use crate::config::ForkConfig;
use crate::git::{CommandError, CommandOutput, checked, read_trimmed, read_counts, failed_with, range_of, nothing_to_stash, git_current_branch, git_is_clean, git_fetch_remote, git_divergence, git_merge_ff_only, git_merge_with_strategy, git_merge_abort, git_stash_push, git_stash_pop};
use crate::text::contains;
use crate::text::{decimal, decimal_string};

verus! {

/// A version-control command the synchronizer asks for.
#[derive(Debug, Clone)]
pub enum GitOp {
    /// The current branch's name.
    CurrentBranch,
    /// Whether the working tree has no changes.
    IsClean,
    Fetch { remote: String },
    /// Commits only in `HEAD` and only in `target` (`HEAD...target`).
    Divergence { target: String },
    MergeFfOnly { target: String },
    MergeWithStrategy { target: String, strategy: Option<String>, strategy_option: Option<String> },
    MergeAbort,
    StashPush { include_untracked: bool, message: String },
    /// `stash pop --index`.
    StashPop,
}

/// What a command answered.
#[derive(Debug, Clone)]
pub enum GitReply {
    Branch(String),
    Clean(bool),
    /// `(ahead, behind)`.
    Counts(u32, u32),
    /// Whether anything was stashed.
    Stashed(bool),
    /// The command succeeded and has nothing to report.
    Done,
    Failed(CommandError),
}

/// Why a synchronization was stopped.
#[derive(Debug, Clone)]
pub enum SyncError {
    WrongBranch { expected: String, actual: String },
    DirtyWorktree,
    /// A command that the run cannot go on without failed.
    Git(CommandError),
    LocalBehind { tracking_ref: String, behind: u32 },
    UpstreamBehind { upstream_ref: String, behind: u32 },
    /// A merge was due but the tree is dirty and stashing is off.
    DirtyMerge { label: String, behind: u32 },
    /// The fast-forward and the strategy merge both failed.
    MergeFailed { fallback: CommandError, fast_forward: CommandError },
    /// The reply does not answer the command that was asked for.
    UnexpectedReply,
}

/// What the caller does next.
#[derive(Debug)]
pub enum Step {
    Run(GitOp),
    /// The run is over: the warnings gathered, or why it stopped.
    Finished(Result<Vec<String>, SyncError>),
}

/// Where the synchronizer stands.
#[derive(Debug, Clone, Copy, PartialEq, Eq, Structural)]
pub enum SyncPhase {
    AwaitBranch,
    AwaitClean,
    AwaitFetchLocal,
    AwaitFetchUpstream,
    AwaitLocalDivergence,
    AwaitUpstreamDivergence,
    /// Inside the reference-merge procedure.
    Merge(MergePhase),
    Finished,
}

/// Where the reference-merge procedure stands.
#[derive(Debug, Clone, Copy, PartialEq, Eq, Structural)]
pub enum MergePhase {
    AwaitDirtyCheck,
    AwaitStash,
    AwaitFastForward,
    AwaitStrategy,
    AwaitAbort,
    AwaitPop,
}

/// A command, with its text fields as character sequences.
pub enum OpView {
    CurrentBranch,
    IsClean,
    Fetch(Seq<char>),
    Divergence(Seq<char>),
    MergeFfOnly(Seq<char>),
    MergeWithStrategy(Seq<char>, Option<Seq<char>>, Option<Seq<char>>),
    MergeAbort,
    StashPush(bool, Seq<char>),
    StashPop,
}

pub open spec fn opt_view(o: Option<String>) -> Option<Seq<char>> {
    match o {
        Some(s) => Some(s@),
        None => None,
    }
}

impl View for GitOp {
    type V = OpView;

    open spec fn view(&self) -> OpView {
        match self {
            GitOp::CurrentBranch => OpView::CurrentBranch,
            GitOp::IsClean => OpView::IsClean,
            GitOp::Fetch { remote } => OpView::Fetch(remote@),
            GitOp::Divergence { target } => OpView::Divergence(target@),
            GitOp::MergeFfOnly { target } => OpView::MergeFfOnly(target@),
            GitOp::MergeWithStrategy { target, strategy, strategy_option } => OpView::MergeWithStrategy(
                target@,
                opt_view(*strategy),
                opt_view(*strategy_option),
            ),
            GitOp::MergeAbort => OpView::MergeAbort,
            GitOp::StashPush { include_untracked, message } => OpView::StashPush(
                *include_untracked,
                message@,
            ),
            GitOp::StashPop => OpView::StashPop,
        }
    }
}

/// `r` asks for the command `op`.
pub open spec fn runs(r: Step, op: OpView) -> bool {
    r matches Step::Run(o) && o@ == op
}

/// The texts of `ws`.
pub open spec fn texts(ws: Seq<String>) -> Seq<Seq<char>> {
    ws.map_values(|w: String| w@)
}

/// `r` ends the run successfully with the warnings `ws`.
pub open spec fn finishes_with(r: Step, ws: Seq<Seq<char>>) -> bool {
    r matches Step::Finished(Ok(v)) && texts(v@) == ws
}

/// The message a stash made before a merge is recorded under.
pub open spec fn stash_message() -> Seq<char> {
    "codex-forksmith auto-merge backup"@
}

pub open spec fn tracking_ref(p: ForkConfig) -> Seq<char> {
    p.local_remote@ + "/"@ + p.local_branch@
}

pub open spec fn upstream_ref(p: ForkConfig) -> Seq<char> {
    p.upstream_remote@ + "/"@ + p.upstream_branch@
}

/// Upstream is fetched on its own where it is another remote or another branch.
pub open spec fn needs_upstream_fetch(p: ForkConfig) -> bool {
    p.upstream_remote@ != p.local_remote@ || p.upstream_branch@ != p.local_branch@
}

pub open spec fn msg_local_behind(tracking: Seq<char>, behind: u32) -> Seq<char> {
    tracking + " is ahead by "@ + decimal(behind as nat) + " commit(s). Pull or merge `"@ + tracking
        + "` before running the updater."@
}

pub open spec fn msg_local_ahead(tracking: Seq<char>, ahead: u32) -> Seq<char> {
    "Local branch is ahead of "@ + tracking + " by "@ + decimal(ahead as nat)
        + " commit(s); remember to push after the run."@
}

pub open spec fn msg_upstream_ahead(upstream: Seq<char>, ahead: u32) -> Seq<char> {
    "Local branch carries "@ + decimal(ahead as nat) + " commit(s) not yet in "@ + upstream + "."@
}

pub open spec fn msg_upstream_behind(upstream: Seq<char>, behind: u32) -> Seq<char> {
    upstream + " is ahead by "@ + decimal(behind as nat) + " commit(s); merge it before pushing."@
}

pub open spec fn msg_no_divergence(target: Seq<char>, err: Seq<char>) -> Seq<char> {
    "Unable to compute divergence against "@ + target + ": "@ + err
}

pub open spec fn msg_dirty_skip(label: Seq<char>, behind: u32) -> Seq<char> {
    label + " is ahead by "@ + decimal(behind as nat)
        + " commit(s) but vendor/codex is dirty; merge it manually."@
}

pub open spec fn msg_fast_forwarded(label: Seq<char>, behind: u32) -> Seq<char> {
    "Fast-forwarded to "@ + label + " ("@ + decimal(behind as nat) + " commit(s))."@
}

pub open spec fn msg_routed(label: Seq<char>, ff_err: Seq<char>) -> Seq<char> {
    "Skipping "@ + label + " because fast-forward failed ("@ + ff_err
        + "). Leaving vendor/codex on its previous commit so the build can continue."@
}

pub open spec fn msg_routed_pop_failed(label: Seq<char>, pop_err: Seq<char>) -> Seq<char> {
    "Skipped "@ + label + " but failed to reapply stashed changes: "@ + pop_err
        + ". Run `git stash pop --index` manually."@
}

pub open spec fn msg_pop_failed(pop_err: Seq<char>) -> Seq<char> {
    "Auto-merge completed but reapplying stashed changes failed: "@ + pop_err
        + ". Run `git stash pop --index` manually."@
}

/// The note left after a strategy merge: which strategy, which option, and
/// why the fast-forward did not do.
pub open spec fn msg_merged(
    label: Seq<char>,
    strategy: Option<Seq<char>>,
    option: Option<Seq<char>>,
    ff_err: Seq<char>,
) -> Seq<char> {
    let with_strategy = match strategy {
        Some(s) => "Merged "@ + label + " using -s "@ + s,
        None => "Merged "@ + label + " using git's default strategy"@,
    };
    let with_option = match option {
        Some(o) => with_strategy + " (-X "@ + o + ")"@,
        None => with_strategy,
    };
    with_option + " after --ff-only failed: "@ + ff_err
}

pub open spec fn err_text(e: CommandError) -> Seq<char> {
    e.command@ + " failed: "@ + e.detail@
}

/// The synchronizer: the policy, where it stands, the warnings so far, and
/// the reference-merge in progress.
#[derive(Debug)]
pub struct ForkSync {
    pub policy: ForkConfig,
    pub phase: SyncPhase,
    pub warnings: Vec<String>,
    /// Commits `HEAD` has that the fork-of-record branch lacks, reported once
    /// the local catch-up is over.
    pub local_ahead: u32,
    /// The merge in progress is the upstream one.
    pub merging_upstream: bool,
    pub target: String,
    pub behind: u32,
    /// Skip the merge, rather than fall back to a strategy merge, when the
    /// fast-forward fails.
    pub route: bool,
    /// A stash was made and has not been popped yet.
    pub stashed: bool,
    pub ff_error: Option<CommandError>,
    /// The fast-forward failed and the merge was skipped.
    pub routed: bool,
    /// The strategy merge failed with this; the run ends with it once the
    /// merge is aborted and the stash popped.
    pub failure: Option<CommandError>,
}


fn cat(a: String, b: &str) -> (r: String)
    ensures
        r@ == a@ + b@,
{
    let mut a = a;
    a.append(b);
    a
}

fn tracking_ref_of(p: &ForkConfig) -> (r: String)
    ensures
        r@ == tracking_ref(*p),
{
    cat(cat(p.local_remote.clone(), "/"), p.local_branch.as_str())
}

fn upstream_ref_of(p: &ForkConfig) -> (r: String)
    ensures
        r@ == upstream_ref(*p),
{
    cat(cat(p.upstream_remote.clone(), "/"), p.upstream_branch.as_str())
}

fn local_behind_text(tracking: &str, behind: u32) -> (r: String)
    ensures
        r@ == msg_local_behind(tracking@, behind),
{
    let d = decimal_string(behind);
    let s = cat(cat(String::from_str(tracking), " is ahead by "), d.as_str());
    cat(cat(cat(s, " commit(s). Pull or merge `"), tracking), "` before running the updater.")
}

fn local_ahead_text(tracking: &str, ahead: u32) -> (r: String)
    ensures
        r@ == msg_local_ahead(tracking@, ahead),
{
    let d = decimal_string(ahead);
    let s = cat(cat(String::from_str("Local branch is ahead of "), tracking), " by ");
    cat(cat(s, d.as_str()), " commit(s); remember to push after the run.")
}

fn upstream_ahead_text(upstream: &str, ahead: u32) -> (r: String)
    ensures
        r@ == msg_upstream_ahead(upstream@, ahead),
{
    let d = decimal_string(ahead);
    let s = cat(String::from_str("Local branch carries "), d.as_str());
    cat(cat(cat(s, " commit(s) not yet in "), upstream), ".")
}

fn upstream_behind_text(upstream: &str, behind: u32) -> (r: String)
    ensures
        r@ == msg_upstream_behind(upstream@, behind),
{
    let d = decimal_string(behind);
    let s = cat(cat(String::from_str(upstream), " is ahead by "), d.as_str());
    cat(s, " commit(s); merge it before pushing.")
}

fn no_divergence_text(target: &str, e: &CommandError) -> (r: String)
    ensures
        r@ == msg_no_divergence(target@, err_text(*e)),
{
    let m = e.message();
    cat(cat(cat(String::from_str("Unable to compute divergence against "), target), ": "), m.as_str())
}

fn dirty_skip_text(label: &str, behind: u32) -> (r: String)
    ensures
        r@ == msg_dirty_skip(label@, behind),
{
    let d = decimal_string(behind);
    let s = cat(cat(String::from_str(label), " is ahead by "), d.as_str());
    cat(s, " commit(s) but vendor/codex is dirty; merge it manually.")
}

fn fast_forwarded_text(label: &str, behind: u32) -> (r: String)
    ensures
        r@ == msg_fast_forwarded(label@, behind),
{
    let d = decimal_string(behind);
    let s = cat(cat(String::from_str("Fast-forwarded to "), label), " (");
    cat(cat(s, d.as_str()), " commit(s)).")
}

fn routed_text(label: &str, e: &CommandError) -> (r: String)
    ensures
        r@ == msg_routed(label@, err_text(*e)),
{
    let m = e.message();
    let s = cat(cat(String::from_str("Skipping "), label), " because fast-forward failed (");
    cat(cat(s, m.as_str()), "). Leaving vendor/codex on its previous commit so the build can continue.")
}

fn routed_pop_failed_text(label: &str, e: &CommandError) -> (r: String)
    ensures
        r@ == msg_routed_pop_failed(label@, err_text(*e)),
{
    let m = e.message();
    let s = cat(cat(String::from_str("Skipped "), label), " but failed to reapply stashed changes: ");
    cat(cat(s, m.as_str()), ". Run `git stash pop --index` manually.")
}

fn pop_failed_text(e: &CommandError) -> (r: String)
    ensures
        r@ == msg_pop_failed(err_text(*e)),
{
    let m = e.message();
    let s = cat(String::from_str("Auto-merge completed but reapplying stashed changes failed: "), m.as_str());
    cat(s, ". Run `git stash pop --index` manually.")
}

fn merged_text(
    label: &str,
    strategy: &Option<String>,
    option: &Option<String>,
    e: &CommandError,
) -> (r: String)
    ensures
        r@ == msg_merged(label@, opt_view(*strategy), opt_view(*option), err_text(*e)),
{
    let s = cat(String::from_str("Merged "), label);
    let s = match strategy {
        Some(st) => cat(cat(s, " using -s "), st.as_str()),
        None => cat(s, " using git's default strategy"),
    };
    let s = match option {
        Some(o) => cat(cat(cat(s, " (-X "), o.as_str()), ")"),
        None => s,
    };
    let m = e.message();
    cat(cat(s, " after --ff-only failed: "), m.as_str())
}

fn clone_opt(o: &Option<String>) -> (r: Option<String>)
    ensures
        r == *o,
{
    match o {
        Some(s) => Some(s.clone()),
        None => None,
    }
}


/// `reply` is of the kind that the command awaited in `phase` answers with.
pub open spec fn answers(phase: SyncPhase, reply: GitReply) -> bool {
    match phase {
        SyncPhase::AwaitBranch => reply is Branch || reply is Failed,
        SyncPhase::AwaitClean => reply is Clean || reply is Failed,
        SyncPhase::AwaitFetchLocal | SyncPhase::AwaitFetchUpstream => reply is Done || reply is Failed,
        SyncPhase::AwaitLocalDivergence | SyncPhase::AwaitUpstreamDivergence => reply is Counts
            || reply is Failed,
        SyncPhase::Merge(m) => match m {
            MergePhase::AwaitDirtyCheck => reply is Clean || reply is Failed,
            MergePhase::AwaitStash => reply is Stashed || reply is Failed,
            _ => reply is Done || reply is Failed,
        },
        SyncPhase::Finished => false,
    }
}

/// `ws` followed by `w` where `cond` holds.
pub open spec fn push_if(ws: Seq<Seq<char>>, cond: bool, w: Seq<char>) -> Seq<Seq<char>> {
    if cond {
        ws.push(w)
    } else {
        ws
    }
}

/// `r` stops the run with `e`.
pub open spec fn stops_with_git(r: Step, e: CommandError) -> bool {
    r matches Step::Finished(Err(SyncError::Git(x))) && x == e
}

/// `t` is `s` with the settings and the merge context kept.
pub open spec fn keeps_context(s: ForkSync, t: ForkSync) -> bool {
    &&& t.policy == s.policy
    &&& t.local_ahead == s.local_ahead
    &&& t.merging_upstream == s.merging_upstream
    &&& t.target == s.target
    &&& t.behind == s.behind
    &&& t.route == s.route
}

/// `t` awaits the upstream divergence with warnings `ws`.
pub open spec fn goes_upstream(s: ForkSync, t: ForkSync, ws: Seq<Seq<char>>, r: Step) -> bool {
    &&& t.phase == SyncPhase::AwaitUpstreamDivergence
    &&& texts(t.warnings@) == ws
    &&& runs(r, OpView::Divergence(upstream_ref(s.policy)))
}

/// `t` has begun the reference-merge procedure towards `target`.
pub open spec fn merge_begun(
    t: ForkSync,
    r: Step,
    target: Seq<char>,
    behind: u32,
    route: bool,
    upstream: bool,
    ws: Seq<Seq<char>>,
) -> bool {
    &&& t.phase == SyncPhase::Merge(MergePhase::AwaitDirtyCheck)
    &&& t.target@ == target
    &&& t.behind == behind
    &&& t.route == route
    &&& t.merging_upstream == upstream
    &&& !t.stashed
    &&& !t.routed
    &&& t.failure is None
    &&& texts(t.warnings@) == ws
    &&& runs(r, OpView::IsClean)
}

/// The reference-merge of `s` is over, with warnings `ws`: after the local
/// merge the upstream divergence is next, after the upstream one the run ends.
pub open spec fn merge_over(s: ForkSync, t: ForkSync, ws: Seq<Seq<char>>, r: Step) -> bool {
    if s.merging_upstream {
        t.phase == SyncPhase::Finished && finishes_with(r, ws)
    } else {
        goes_upstream(
            s,
            t,
            push_if(ws, s.local_ahead > 0, msg_local_ahead(tracking_ref(s.policy), s.local_ahead)),
            r,
        )
    }
}

/// The merge of `s` winds up with warnings `ws`: a stash left is popped
/// first; then a failed strategy merge stops the run, else the merge is over.
pub open spec fn merge_winds_up(s: ForkSync, t: ForkSync, ws: Seq<Seq<char>>, r: Step) -> bool {
    if s.stashed {
        &&& t.phase == SyncPhase::Merge(MergePhase::AwaitPop)
        &&& t.stashed
        &&& runs(r, OpView::StashPop)
        &&& texts(t.warnings@) == ws
        &&& t.failure == s.failure
        &&& t.ff_error == s.ff_error
        &&& t.routed == s.routed
    } else {
        merge_concludes(s, t, ws, r)
    }
}

/// With nothing left to pop: a failed strategy merge stops the run with both
/// errors, else the merge is over.
pub open spec fn merge_concludes(s: ForkSync, t: ForkSync, ws: Seq<Seq<char>>, r: Step) -> bool {
    match s.failure {
        Some(f) => t.phase == SyncPhase::Finished && (r matches Step::Finished(
            Err(SyncError::MergeFailed { fallback, fast_forward }),
        ) && fallback == f && Some(fast_forward) == s.ff_error),
        None => merge_over(s, t, ws, r),
    }
}

/// A failure of the command awaited in `phase` stops the run.
pub open spec fn fails_fatally(phase: SyncPhase) -> bool {
    phase == SyncPhase::AwaitBranch || phase == SyncPhase::AwaitClean || phase
        == SyncPhase::AwaitFetchLocal || phase == SyncPhase::AwaitFetchUpstream || phase
        == SyncPhase::Merge(MergePhase::AwaitDirtyCheck) || phase == SyncPhase::Merge(
        MergePhase::AwaitStash,
    )
}

/// One step of the synchronizer from `s` to `t` on `reply`, asking for `r`.
pub open spec fn resumed(s: ForkSync, t: ForkSync, reply: GitReply, r: Step) -> bool {
    let p = s.policy;
    let ws = texts(s.warnings@);
    if !answers(s.phase, reply) {
        r matches Step::Finished(Err(SyncError::UnexpectedReply))
    } else if reply is Failed && fails_fatally(s.phase) {
        match reply {
            GitReply::Failed(e) => stops_with_git(r, e),
            _ => true,
        }
    } else {
        match s.phase {
            SyncPhase::AwaitBranch => match reply {
                GitReply::Branch(b) => if b@ == p.local_branch@ {
                    if p.require_clean_worktree {
                        t.phase == SyncPhase::AwaitClean && runs(r, OpView::IsClean)
                    } else {
                        t.phase == SyncPhase::AwaitFetchLocal && runs(r, OpView::Fetch(p.local_remote@))
                    }
                } else {
                    r matches Step::Finished(Err(SyncError::WrongBranch { expected, actual }))
                        && expected@ == p.local_branch@ && actual@ == b@
                },
                _ => true,
            },
            SyncPhase::AwaitClean => match reply {
                GitReply::Clean(c) => if c {
                    t.phase == SyncPhase::AwaitFetchLocal && runs(r, OpView::Fetch(p.local_remote@))
                } else {
                    r matches Step::Finished(Err(SyncError::DirtyWorktree))
                },
                _ => true,
            },
            SyncPhase::AwaitFetchLocal => if needs_upstream_fetch(p) {
                t.phase == SyncPhase::AwaitFetchUpstream && runs(r, OpView::Fetch(p.upstream_remote@))
            } else {
                t.phase == SyncPhase::AwaitLocalDivergence && runs(r, OpView::Divergence(tracking_ref(p)))
            },
            SyncPhase::AwaitFetchUpstream => t.phase == SyncPhase::AwaitLocalDivergence && runs(
                r,
                OpView::Divergence(tracking_ref(p)),
            ),
            SyncPhase::AwaitLocalDivergence => match reply {
                GitReply::Counts(ahead, behind) => {
                    let ahead_note = msg_local_ahead(tracking_ref(p), ahead);
                    if behind == 0 {
                        goes_upstream(s, t, push_if(ws, ahead > 0, ahead_note), r)
                    } else if p.auto_merge_local {
                        t.local_ahead == ahead && merge_begun(t, r, tracking_ref(p), behind, false, false, ws)
                    } else if p.abort_on_divergence {
                        r matches Step::Finished(Err(SyncError::LocalBehind { tracking_ref: x, behind: y }))
                            && x@ == tracking_ref(p) && y == behind
                    } else {
                        goes_upstream(
                            s,
                            t,
                            push_if(ws.push(msg_local_behind(tracking_ref(p), behind)), ahead > 0, ahead_note),
                            r,
                        )
                    }
                },
                GitReply::Failed(e) => goes_upstream(
                    s,
                    t,
                    ws.push(msg_no_divergence(tracking_ref(p), err_text(e))),
                    r,
                ),
                _ => true,
            },
            SyncPhase::AwaitUpstreamDivergence => match reply {
                GitReply::Counts(ahead, behind) => {
                    let ws1 = push_if(
                        ws,
                        ahead > 0 && !p.silence_local_ahead_warning,
                        msg_upstream_ahead(upstream_ref(p), ahead),
                    );
                    if behind == 0 {
                        t.phase == SyncPhase::Finished && finishes_with(r, ws1)
                    } else if p.auto_merge_upstream {
                        merge_begun(t, r, upstream_ref(p), behind, p.auto_route_upstream, true, ws1)
                    } else if p.abort_on_divergence {
                        r matches Step::Finished(
                            Err(SyncError::UpstreamBehind { upstream_ref: x, behind: y }),
                        ) && x@ == upstream_ref(p) && y == behind
                    } else {
                        t.phase == SyncPhase::Finished && finishes_with(
                            r,
                            ws1.push(msg_upstream_behind(upstream_ref(p), behind)),
                        )
                    }
                },
                GitReply::Failed(e) => t.phase == SyncPhase::Finished && finishes_with(
                    r,
                    ws.push(msg_no_divergence(upstream_ref(p), err_text(e))),
                ),
                _ => true,
            },
            SyncPhase::Merge(m) => keeps_context(s, t) && match m {
                MergePhase::AwaitDirtyCheck => match reply {
                    GitReply::Clean(c) => if c {
                        t.phase == SyncPhase::Merge(MergePhase::AwaitFastForward) && !t.stashed
                            && texts(t.warnings@) == ws && runs(r, OpView::MergeFfOnly(s.target@))
                    } else if p.auto_stash_before_merge {
                        t.phase == SyncPhase::Merge(MergePhase::AwaitStash) && !t.stashed && texts(
                            t.warnings@,
                        ) == ws && runs(r, OpView::StashPush(true, stash_message()))
                    } else if p.abort_on_divergence {
                        r matches Step::Finished(Err(SyncError::DirtyMerge { label, behind }))
                            && label@ == s.target@ && behind == s.behind
                    } else {
                        merge_over(s, t, ws.push(msg_dirty_skip(s.target@, s.behind)), r)
                    },
                    _ => true,
                },
                MergePhase::AwaitStash => match reply {
                    GitReply::Stashed(b) => t.phase == SyncPhase::Merge(MergePhase::AwaitFastForward)
                        && t.stashed == b && texts(t.warnings@) == ws && runs(
                        r,
                        OpView::MergeFfOnly(s.target@),
                    ),
                    _ => true,
                },
                MergePhase::AwaitFastForward => match reply {
                    GitReply::Done => merge_winds_up(
                        s,
                        t,
                        ws.push(msg_fast_forwarded(s.target@, s.behind)),
                        r,
                    ),
                    GitReply::Failed(e) => if s.route {
                        merge_winds_up(
                            ForkSync { routed: true, ..s },
                            t,
                            ws.push(msg_routed(s.target@, err_text(e))),
                            r,
                        )
                    } else {
                        &&& t.phase == SyncPhase::Merge(MergePhase::AwaitStrategy)
                        &&& t.stashed == s.stashed
                        &&& t.ff_error == Some(e)
                        &&& texts(t.warnings@) == ws
                        &&& runs(
                            r,
                            OpView::MergeWithStrategy(
                                s.target@,
                                opt_view(p.merge_strategy),
                                opt_view(p.merge_strategy_option),
                            ),
                        )
                    },
                    _ => true,
                },
                MergePhase::AwaitStrategy => match reply {
                    GitReply::Done => merge_winds_up(
                        s,
                        t,
                        ws.push(
                            msg_merged(
                                s.target@,
                                opt_view(p.merge_strategy),
                                opt_view(p.merge_strategy_option),
                                err_text(s.ff_error->0),
                            ),
                        ),
                        r,
                    ),
                    GitReply::Failed(e) => t.phase == SyncPhase::Merge(MergePhase::AwaitAbort)
                        && t.stashed == s.stashed && t.failure == Some(e) && t.ff_error == s.ff_error
                        && texts(t.warnings@) == ws && runs(r, OpView::MergeAbort),
                    _ => true,
                },
                MergePhase::AwaitAbort => merge_winds_up(s, t, ws, r),
                MergePhase::AwaitPop => !t.stashed && match reply {
                    GitReply::Done => merge_concludes(s, t, ws, r),
                    GitReply::Failed(e) => merge_concludes(
                        s,
                        t,
                        ws.push(
                            if s.routed {
                                msg_routed_pop_failed(s.target@, err_text(e))
                            } else {
                                msg_pop_failed(err_text(e))
                            },
                        ),
                        r,
                    ),
                    _ => true,
                },
            },
            SyncPhase::Finished => true,
        }
    }
}

impl ForkSync {
    /// The synchronizer's consistency: a pending stash exists only between
    /// the stash and its pop; a failed strategy merge is only carried to the
    /// abort and the pop, together with the fast-forward error.
    pub open spec fn wf(&self) -> bool {
        &&& self.stashed ==> match self.phase {
            SyncPhase::Merge(m) => m != MergePhase::AwaitDirtyCheck && m != MergePhase::AwaitStash,
            _ => false,
        }
        &&& self.phase == SyncPhase::Merge(MergePhase::AwaitStrategy) ==> self.ff_error is Some
        &&& self.phase == SyncPhase::Merge(MergePhase::AwaitAbort) ==> self.failure is Some
        &&& self.failure is Some ==> self.ff_error is Some && (self.phase == SyncPhase::Merge(
            MergePhase::AwaitAbort,
        ) || self.phase == SyncPhase::Merge(MergePhase::AwaitPop))
    }

    /// A synchronizer for `policy`, and its first command: the current branch.
    pub fn new(policy: ForkConfig) -> (r: (Self, Step))
        ensures
            r.0.wf(),
            r.0.policy == policy,
            r.0.phase == SyncPhase::AwaitBranch,
            r.0.warnings@.len() == 0,
            !r.0.stashed,
            runs(r.1, OpView::CurrentBranch),
    {
        let s = ForkSync {
            policy,
            phase: SyncPhase::AwaitBranch,
            warnings: Vec::new(),
            local_ahead: 0,
            merging_upstream: false,
            target: String::new(),
            behind: 0,
            route: false,
            stashed: false,
            ff_error: None,
            routed: false,
            failure: None,
        };
        (s, Step::Run(GitOp::CurrentBranch))
    }

    fn warn(&mut self, w: String)
        ensures
            texts(final(self).warnings@) == texts(old(self).warnings@).push(w@),
            *final(self) == (ForkSync { warnings: final(self).warnings, ..*old(self) }),
    {
        self.warnings.push(w);
        assert(texts(self.warnings@) =~= texts(old(self).warnings@).push(w@));
    }

    fn stop(&mut self, e: SyncError) -> (r: Step)
        ensures
            r == Step::Finished(Err(e)),
            *final(self) == (ForkSync { phase: SyncPhase::Finished, ..*old(self) }),
    {
        self.phase = SyncPhase::Finished;
        Step::Finished(Err(e))
    }

    fn finish(&mut self) -> (r: Step)
        ensures
            finishes_with(r, texts(old(self).warnings@)),
            final(self).phase == SyncPhase::Finished,
            keeps_context(*old(self), *final(self)),
            final(self).stashed == old(self).stashed,
            final(self).failure == old(self).failure,
            final(self).ff_error == old(self).ff_error,
    {
        let mut ws: Vec<String> = Vec::new();
        std::mem::swap(&mut ws, &mut self.warnings);
        self.phase = SyncPhase::Finished;
        Step::Finished(Ok(ws))
    }

    fn to_upstream(&mut self) -> (r: Step)
        ensures
            goes_upstream(*old(self), *final(self), texts(old(self).warnings@), r),
            *final(self) == (ForkSync { phase: SyncPhase::AwaitUpstreamDivergence, ..*old(self) }),
    {
        self.phase = SyncPhase::AwaitUpstreamDivergence;
        Step::Run(GitOp::Divergence { target: upstream_ref_of(&self.policy) })
    }

    fn begin_merge(&mut self, target: String, behind: u32, route: bool, upstream: bool) -> (r: Step)
        ensures
            merge_begun(*final(self), r, target@, behind, route, upstream, texts(old(self).warnings@)),
            final(self).policy == old(self).policy,
            final(self).local_ahead == old(self).local_ahead,
            final(self).ff_error is None,
    {
        self.phase = SyncPhase::Merge(MergePhase::AwaitDirtyCheck);
        self.target = target;
        self.behind = behind;
        self.route = route;
        self.merging_upstream = upstream;
        self.stashed = false;
        self.routed = false;
        self.ff_error = None;
        self.failure = None;
        Step::Run(GitOp::IsClean)
    }

    fn end_merge(&mut self) -> (r: Step)
        requires
            !old(self).stashed,
            old(self).failure is None,
        ensures
            merge_over(*old(self), *final(self), texts(old(self).warnings@), r),
            keeps_context(*old(self), *final(self)),
            !final(self).stashed,
            final(self).failure is None,
    {
        if self.merging_upstream {
            self.finish()
        } else {
            if self.local_ahead > 0 {
                let t = tracking_ref_of(&self.policy);
                let w = local_ahead_text(t.as_str(), self.local_ahead);
                self.warn(w);
            }
            self.to_upstream()
        }
    }

    fn conclude(&mut self) -> (r: Step)
        requires
            !old(self).stashed,
            old(self).failure is Some ==> old(self).ff_error is Some,
        ensures
            merge_concludes(*old(self), *final(self), texts(old(self).warnings@), r),
            keeps_context(*old(self), *final(self)),
            !final(self).stashed,
            final(self).failure is None,
    {
        match self.failure.take() {
            Some(f) => {
                let ff = self.ff_error.take().unwrap();
                self.stop(SyncError::MergeFailed { fallback: f, fast_forward: ff })
            },
            None => self.end_merge(),
        }
    }

    fn wind_up(&mut self) -> (r: Step)
        requires
            old(self).failure is Some ==> old(self).ff_error is Some,
        ensures
            merge_winds_up(*old(self), *final(self), texts(old(self).warnings@), r),
            keeps_context(*old(self), *final(self)),
            final(self).stashed ==> final(self).phase == SyncPhase::Merge(MergePhase::AwaitPop),
            final(self).failure is Some ==> final(self).ff_error is Some && final(self).phase
                == SyncPhase::Merge(MergePhase::AwaitPop),
    {
        if self.stashed {
            self.phase = SyncPhase::Merge(MergePhase::AwaitPop);
            Step::Run(GitOp::StashPop)
        } else {
            self.conclude()
        }
    }
}


impl ForkSync {
    /// Takes the reply to the command last asked for and decides the next one.
    pub fn resume(&mut self, reply: GitReply) -> (r: Step)
        requires
            old(self).wf(),
        ensures
            final(self).policy == old(self).policy,
            final(self).wf(),
            resumed(*old(self), *final(self), reply, r),
            r is Finished ==> final(self).phase == SyncPhase::Finished || !answers(old(self).phase, reply),
            r is Run ==> final(self).phase != SyncPhase::Finished,
            final(self).stashed && !old(self).stashed ==> reply matches GitReply::Stashed(true),
            old(self).stashed && !final(self).stashed ==> old(self).phase == SyncPhase::Merge(MergePhase::AwaitPop),
            answers(old(self).phase, reply) && old(self).stashed ==> final(self).phase != SyncPhase::Finished
                || !final(self).stashed,
    {
        if !self.awaits(&reply) {
            return Step::Finished(Err(SyncError::UnexpectedReply));
        }
        match self.phase {
            SyncPhase::AwaitBranch => self.on_branch(reply),
            SyncPhase::AwaitClean => self.on_clean(reply),
            SyncPhase::AwaitFetchLocal => self.on_fetch(reply, true),
            SyncPhase::AwaitFetchUpstream => self.on_fetch(reply, false),
            SyncPhase::AwaitLocalDivergence => self.on_local_divergence(reply),
            SyncPhase::AwaitUpstreamDivergence => self.on_upstream_divergence(reply),
            SyncPhase::Merge(m) => self.on_merge(m, reply),
            SyncPhase::Finished => Step::Finished(Err(SyncError::UnexpectedReply)),
        }
    }

    fn awaits(&self, reply: &GitReply) -> (r: bool)
        ensures
            r == answers(self.phase, *reply),
    {
        let failed = matches!(reply, GitReply::Failed(_));
        match self.phase {
            SyncPhase::AwaitBranch => failed || matches!(reply, GitReply::Branch(_)),
            SyncPhase::AwaitClean => failed || matches!(reply, GitReply::Clean(_)),
            SyncPhase::AwaitFetchLocal | SyncPhase::AwaitFetchUpstream => failed || matches!(reply, GitReply::Done),
            SyncPhase::AwaitLocalDivergence | SyncPhase::AwaitUpstreamDivergence => failed || matches!(reply, GitReply::Counts(_, _)),
            SyncPhase::Merge(m) => match m {
                MergePhase::AwaitDirtyCheck => failed || matches!(reply, GitReply::Clean(_)),
                MergePhase::AwaitStash => failed || matches!(reply, GitReply::Stashed(_)),
                _ => failed || matches!(reply, GitReply::Done),
            },
            SyncPhase::Finished => false,
        }
    }

    fn fetch_local(&mut self) -> (r: Step)
        ensures
            final(self).phase == SyncPhase::AwaitFetchLocal,
            runs(r, OpView::Fetch(old(self).policy.local_remote@)),
            *final(self) == (ForkSync { phase: SyncPhase::AwaitFetchLocal, ..*old(self) }),
    {
        self.phase = SyncPhase::AwaitFetchLocal;
        Step::Run(GitOp::Fetch { remote: self.policy.local_remote.clone() })
    }

    fn on_branch(&mut self, reply: GitReply) -> (r: Step)
        requires
            old(self).wf(),
            old(self).phase == SyncPhase::AwaitBranch,
            answers(old(self).phase, reply),
        ensures
            final(self).policy == old(self).policy,
            final(self).wf(),
            resumed(*old(self), *final(self), reply, r),
            r is Finished ==> final(self).phase == SyncPhase::Finished,
            r is Run ==> final(self).phase != SyncPhase::Finished,
            final(self).stashed == old(self).stashed,
    {
        match reply {
            GitReply::Branch(b) => {
                if b == self.policy.local_branch {
                    if self.policy.require_clean_worktree {
                        self.phase = SyncPhase::AwaitClean;
                        Step::Run(GitOp::IsClean)
                    } else {
                        self.fetch_local()
                    }
                } else {
                    let expected = self.policy.local_branch.clone();
                    self.stop(SyncError::WrongBranch { expected, actual: b })
                }
            },
            GitReply::Failed(e) => self.stop(SyncError::Git(e)),
            _ => self.stop(SyncError::UnexpectedReply),
        }
    }

    fn on_clean(&mut self, reply: GitReply) -> (r: Step)
        requires
            old(self).wf(),
            old(self).phase == SyncPhase::AwaitClean,
            answers(old(self).phase, reply),
        ensures
            final(self).policy == old(self).policy,
            final(self).wf(),
            resumed(*old(self), *final(self), reply, r),
            r is Finished ==> final(self).phase == SyncPhase::Finished,
            r is Run ==> final(self).phase != SyncPhase::Finished,
            final(self).stashed == old(self).stashed,
    {
        match reply {
            GitReply::Clean(c) => {
                if c {
                    self.fetch_local()
                } else {
                    self.stop(SyncError::DirtyWorktree)
                }
            },
            GitReply::Failed(e) => self.stop(SyncError::Git(e)),
            _ => self.stop(SyncError::UnexpectedReply),
        }
    }

    fn on_fetch(&mut self, reply: GitReply, local: bool) -> (r: Step)
        requires
            old(self).wf(),
            local ==> old(self).phase == SyncPhase::AwaitFetchLocal,
            !local ==> old(self).phase == SyncPhase::AwaitFetchUpstream,
            answers(old(self).phase, reply),
        ensures
            final(self).policy == old(self).policy,
            final(self).wf(),
            resumed(*old(self), *final(self), reply, r),
            r is Finished ==> final(self).phase == SyncPhase::Finished,
            r is Run ==> final(self).phase != SyncPhase::Finished,
            final(self).stashed == old(self).stashed,
    {
        match reply {
            GitReply::Done => {
                let up_fetch = !(self.policy.upstream_remote == self.policy.local_remote)
                    || !(self.policy.upstream_branch == self.policy.local_branch);
                if local && up_fetch {
                    self.phase = SyncPhase::AwaitFetchUpstream;
                    Step::Run(GitOp::Fetch { remote: self.policy.upstream_remote.clone() })
                } else {
                    self.phase = SyncPhase::AwaitLocalDivergence;
                    Step::Run(GitOp::Divergence { target: tracking_ref_of(&self.policy) })
                }
            },
            GitReply::Failed(e) => self.stop(SyncError::Git(e)),
            _ => self.stop(SyncError::UnexpectedReply),
        }
    }

    fn on_local_divergence(&mut self, reply: GitReply) -> (r: Step)
        requires
            old(self).wf(),
            old(self).phase == SyncPhase::AwaitLocalDivergence,
            answers(old(self).phase, reply),
        ensures
            final(self).policy == old(self).policy,
            final(self).wf(),
            resumed(*old(self), *final(self), reply, r),
            r is Finished ==> final(self).phase == SyncPhase::Finished,
            r is Run ==> final(self).phase != SyncPhase::Finished,
            !final(self).stashed,
    {
        let tracking = tracking_ref_of(&self.policy);
        match reply {
            GitReply::Counts(ahead, behind) => {
                if behind > 0 {
                    if self.policy.auto_merge_local {
                        self.local_ahead = ahead;
                        return self.begin_merge(tracking, behind, false, false);
                    } else if self.policy.abort_on_divergence {
                        return self.stop(SyncError::LocalBehind { tracking_ref: tracking, behind });
                    } else {
                        let w = local_behind_text(tracking.as_str(), behind);
                        self.warn(w);
                    }
                }
                if ahead > 0 {
                    let w = local_ahead_text(tracking.as_str(), ahead);
                    self.warn(w);
                }
                self.to_upstream()
            },
            GitReply::Failed(e) => {
                let w = no_divergence_text(tracking.as_str(), &e);
                self.warn(w);
                self.to_upstream()
            },
            _ => self.stop(SyncError::UnexpectedReply),
        }
    }

    fn on_upstream_divergence(&mut self, reply: GitReply) -> (r: Step)
        requires
            old(self).wf(),
            old(self).phase == SyncPhase::AwaitUpstreamDivergence,
            answers(old(self).phase, reply),
        ensures
            final(self).policy == old(self).policy,
            final(self).wf(),
            resumed(*old(self), *final(self), reply, r),
            r is Finished ==> final(self).phase == SyncPhase::Finished,
            r is Run ==> final(self).phase != SyncPhase::Finished,
            !final(self).stashed,
    {
        let upstream = upstream_ref_of(&self.policy);
        match reply {
            GitReply::Counts(ahead, behind) => {
                if ahead > 0 && !self.policy.silence_local_ahead_warning {
                    let w = upstream_ahead_text(upstream.as_str(), ahead);
                    self.warn(w);
                }
                if behind > 0 {
                    if self.policy.auto_merge_upstream {
                        let route = self.policy.auto_route_upstream;
                        return self.begin_merge(upstream, behind, route, true);
                    } else if self.policy.abort_on_divergence {
                        return self.stop(SyncError::UpstreamBehind { upstream_ref: upstream, behind });
                    } else {
                        let w = upstream_behind_text(upstream.as_str(), behind);
                        self.warn(w);
                    }
                }
                self.finish()
            },
            GitReply::Failed(e) => {
                let w = no_divergence_text(upstream.as_str(), &e);
                self.warn(w);
                self.finish()
            },
            _ => self.stop(SyncError::UnexpectedReply),
        }
    }
}


impl ForkSync {
    fn on_merge(&mut self, m: MergePhase, reply: GitReply) -> (r: Step)
        requires
            old(self).wf(),
            old(self).phase == SyncPhase::Merge(m),
            answers(old(self).phase, reply),
        ensures
            final(self).policy == old(self).policy,
            final(self).wf(),
            resumed(*old(self), *final(self), reply, r),
            r is Finished ==> final(self).phase == SyncPhase::Finished,
            r is Run ==> final(self).phase != SyncPhase::Finished,
            final(self).stashed && !old(self).stashed ==> reply matches GitReply::Stashed(true),
            old(self).stashed && !final(self).stashed ==> m == MergePhase::AwaitPop,
            old(self).stashed ==> final(self).phase != SyncPhase::Finished || !final(self).stashed,
    {
        match m {
            MergePhase::AwaitDirtyCheck => match reply {
                GitReply::Clean(c) => {
                    if c {
                        self.phase = SyncPhase::Merge(MergePhase::AwaitFastForward);
                        Step::Run(GitOp::MergeFfOnly { target: self.target.clone() })
                    } else if self.policy.auto_stash_before_merge {
                        self.phase = SyncPhase::Merge(MergePhase::AwaitStash);
                        Step::Run(
                            GitOp::StashPush {
                                include_untracked: true,
                                message: String::from_str("codex-forksmith auto-merge backup"),
                            },
                        )
                    } else if self.policy.abort_on_divergence {
                        let label = self.target.clone();
                        let behind = self.behind;
                        self.stop(SyncError::DirtyMerge { label, behind })
                    } else {
                        let w = dirty_skip_text(self.target.as_str(), self.behind);
                        self.warn(w);
                        self.end_merge()
                    }
                },
                GitReply::Failed(e) => {
                    self.stop(SyncError::Git(e))
                },
                _ => self.stop(SyncError::UnexpectedReply),
            },
            MergePhase::AwaitStash => match reply {
                GitReply::Stashed(b) => {
                    self.stashed = b;
                    self.phase = SyncPhase::Merge(MergePhase::AwaitFastForward);
                    Step::Run(GitOp::MergeFfOnly { target: self.target.clone() })
                },
                GitReply::Failed(e) => {
                    self.stop(SyncError::Git(e))
                },
                _ => self.stop(SyncError::UnexpectedReply),
            },
            MergePhase::AwaitFastForward => match reply {
                GitReply::Done => {
                    let w = fast_forwarded_text(self.target.as_str(), self.behind);
                    self.warn(w);
                    self.wind_up()
                },
                GitReply::Failed(e) => {
                    if self.route {
                        let w = routed_text(self.target.as_str(), &e);
                        self.routed = true;
                        self.warn(w);
                        let ghost mid = *self;
                        let r = self.wind_up();
                        proof {
                            let routed = ForkSync { routed: true, ..*old(self) };
                            assert(mid == ForkSync { warnings: mid.warnings, ..routed });
                            assert(merge_winds_up(mid, *self, texts(mid.warnings@), r));
                            assert(merge_winds_up(routed, *self, texts(mid.warnings@), r));
                        }
                        r
                    } else {
                        let strategy = clone_opt(&self.policy.merge_strategy);
                        let strategy_option = clone_opt(&self.policy.merge_strategy_option);
                        self.ff_error = Some(e);
                        self.phase = SyncPhase::Merge(MergePhase::AwaitStrategy);
                        Step::Run(
                            GitOp::MergeWithStrategy {
                                target: self.target.clone(),
                                strategy,
                                strategy_option,
                            },
                        )
                    }
                },
                _ => self.stop(SyncError::UnexpectedReply),
            },
            MergePhase::AwaitStrategy => match reply {
                GitReply::Done => {
                    let w = match &self.ff_error {
                        Some(ff) => merged_text(
                            self.target.as_str(),
                            &self.policy.merge_strategy,
                            &self.policy.merge_strategy_option,
                            ff,
                        ),
                        None => String::new(),
                    };
                    self.warn(w);
                    self.wind_up()
                },
                GitReply::Failed(e) => {
                    self.failure = Some(e);
                    self.phase = SyncPhase::Merge(MergePhase::AwaitAbort);
                    Step::Run(GitOp::MergeAbort)
                },
                _ => self.stop(SyncError::UnexpectedReply),
            },
            MergePhase::AwaitAbort => {
                self.wind_up()
            },
            MergePhase::AwaitPop => match reply {
                GitReply::Done => {
                    self.stashed = false;
                    self.conclude()
                },
                GitReply::Failed(e) => {
                    self.stashed = false;
                    let w = if self.routed {
                        routed_pop_failed_text(self.target.as_str(), &e)
                    } else {
                        pop_failed_text(&e)
                    };
                    self.warn(w);
                    self.conclude()
                },
                _ => self.stop(SyncError::UnexpectedReply),
            },
        }
    }
}


/// A divergence that is not behind never starts the reference-merge
/// procedure: whatever the policy and however far ahead `HEAD` is, the step
/// on such counts leaves the synchronizer outside the merge.
pub proof fn lemma_no_merge_unless_behind(s: ForkSync, t: ForkSync, ahead: u32, r: Step)
    requires
        s.phase == SyncPhase::AwaitLocalDivergence || s.phase == SyncPhase::AwaitUpstreamDivergence,
        resumed(s, t, GitReply::Counts(ahead, 0), r),
    ensures
        !(t.phase is Merge),
        !runs(r, OpView::IsClean),
{
}

/// A stash made before a merge is popped before the run ends: from a state
/// holding one, a step on a reply that answers the command asked for ends
/// the run only where that command was the pop; every other step keeps the
/// stash inside the merge procedure, and the fast-forward, the strategy merge
/// and its abort each lead to the pop whether they succeeded or failed.
pub proof fn lemma_stash_popped_before_finish(s: ForkSync, t: ForkSync, reply: GitReply, r: Step)
    requires
        s.wf(),
        s.stashed,
        answers(s.phase, reply),
        resumed(s, t, reply, r),
    ensures
        r is Finished ==> s.phase == SyncPhase::Merge(MergePhase::AwaitPop),
        s.phase == SyncPhase::Merge(MergePhase::AwaitFastForward) && (reply is Done || s.route)
            ==> runs(r, OpView::StashPop) && t.phase == SyncPhase::Merge(MergePhase::AwaitPop),
        s.phase == SyncPhase::Merge(MergePhase::AwaitStrategy) && reply is Done ==> runs(
            r,
            OpView::StashPop,
        ) && t.phase == SyncPhase::Merge(MergePhase::AwaitPop),
        s.phase == SyncPhase::Merge(MergePhase::AwaitAbort) ==> runs(r, OpView::StashPop)
            && t.phase == SyncPhase::Merge(MergePhase::AwaitPop),
{
}


/// The arguments `git` is run with for `op`.
pub open spec fn args_of(op: OpView) -> Seq<Seq<char>> {
    match op {
        OpView::CurrentBranch => seq!["rev-parse"@, "--abbrev-ref"@, "HEAD"@],
        OpView::IsClean => seq!["status"@, "--porcelain"@],
        OpView::Fetch(remote) => seq!["fetch"@, remote],
        OpView::Divergence(target) => seq!["rev-list"@, "--left-right"@, "--count"@, range_of("HEAD"@, target)],
        OpView::MergeFfOnly(target) => seq!["merge"@, "--ff-only"@, target],
        OpView::MergeWithStrategy(target, strategy, option) => {
            let with_s = match strategy {
                Some(st) => seq!["merge"@, "--no-edit"@, "-s"@, st],
                None => seq!["merge"@, "--no-edit"@],
            };
            let with_x = match option {
                Some(o) => with_s + seq!["-X"@, o],
                None => with_s,
            };
            with_x.push(target)
        },
        OpView::MergeAbort => seq!["merge"@, "--abort"@],
        OpView::StashPush(include_untracked, message) => {
            let base = if include_untracked {
                seq!["stash"@, "push"@, "--include-untracked"@]
            } else {
                seq!["stash"@, "push"@]
            };
            base + seq!["-m"@, message]
        },
        OpView::StashPop => seq!["stash"@, "pop"@, "--index"@],
    }
}

/// `r` is the reply that the output `out` of `op` amounts to, as the adapter
/// reads each command.
pub open spec fn reply_of(op: GitOp, out: CommandOutput, r: GitReply) -> bool {
    match op {
        GitOp::CurrentBranch => if out.success {
            r matches GitReply::Branch(b) && read_trimmed(Ok(b), "git rev-parse --abbrev-ref HEAD"@, out)
        } else {
            r matches GitReply::Failed(e) && failed_with(e, "git rev-parse --abbrev-ref HEAD"@, out)
        },
        GitOp::IsClean => if out.success {
            r == GitReply::Clean(out.stdout@.len() == 0)
        } else {
            r matches GitReply::Failed(e) && failed_with(e, "git status --porcelain"@, out)
        },
        GitOp::Fetch { remote } => done_or_failed(r, "git fetch "@ + remote@, out),
        GitOp::Divergence { target } => {
            let command = "git rev-list --left-right --count "@ + range_of("HEAD"@, target@);
            match r {
                GitReply::Counts(a, b) => read_counts(Ok((a, b)), command, out),
                GitReply::Failed(e) => read_counts(Err(e), command, out),
                _ => false,
            }
        },
        GitOp::MergeFfOnly { target } => done_or_failed(r, "git merge --ff-only "@ + target@, out),
        GitOp::MergeWithStrategy { target, .. } => done_or_failed(r, "git merge "@ + target@, out),
        GitOp::MergeAbort => done_or_failed(r, "git merge --abort"@, out),
        GitOp::StashPush { .. } => if out.success {
            r == GitReply::Stashed(
                !(contains(out.stdout@, nothing_to_stash()) || contains(out.stderr@, nothing_to_stash())),
            )
        } else {
            r matches GitReply::Failed(e) && failed_with(e, "git stash push"@, out)
        },
        GitOp::StashPop => done_or_failed(r, "git stash pop --index"@, out),
    }
}

/// `r` is `Done` for a successful `out` of `command`, else its failure.
pub open spec fn done_or_failed(r: GitReply, command: Seq<char>, out: CommandOutput) -> bool {
    match r {
        GitReply::Done => checked(Ok(()), command, out),
        GitReply::Failed(e) => checked(Err(e), command, out),
        _ => false,
    }
}

fn lit(s: &str) -> (r: String)
    ensures
        r@ == s@,
{
    String::from_str(s)
}

fn done_or(res: Result<(), CommandError>) -> (r: GitReply)
    ensures
        match res {
            Ok(_) => r == GitReply::Done,
            Err(e) => r == GitReply::Failed(e),
        },
{
    match res {
        Ok(()) => GitReply::Done,
        Err(e) => GitReply::Failed(e),
    }
}

impl GitOp {
    /// The arguments to run `git` with.
    pub fn args(&self) -> (r: Vec<String>)
        ensures
            texts(r@) == args_of(self@),
    {
        let mut v: Vec<String> = Vec::new();
        match self {
            GitOp::CurrentBranch => {
                v.push(lit("rev-parse"));
                v.push(lit("--abbrev-ref"));
                v.push(lit("HEAD"));
            },
            GitOp::IsClean => {
                v.push(lit("status"));
                v.push(lit("--porcelain"));
            },
            GitOp::Fetch { remote } => {
                v.push(lit("fetch"));
                v.push(remote.clone());
            },
            GitOp::Divergence { target } => {
                v.push(lit("rev-list"));
                v.push(lit("--left-right"));
                v.push(lit("--count"));
                let mut range = lit("HEAD...");
                range.append(target.as_str());
                proof {
                    reveal_strlit("HEAD...");
                    reveal_strlit("HEAD");
                    reveal_strlit("...");
                    assert("HEAD..."@ =~= "HEAD"@ + "..."@);
                }
                v.push(range);
            },
            GitOp::MergeFfOnly { target } => {
                v.push(lit("merge"));
                v.push(lit("--ff-only"));
                v.push(target.clone());
            },
            GitOp::MergeWithStrategy { target, strategy, strategy_option } => {
                v.push(lit("merge"));
                v.push(lit("--no-edit"));
                match strategy {
                    Some(st) => {
                        v.push(lit("-s"));
                        v.push(st.clone());
                    },
                    None => {},
                }
                let ghost with_s = texts(v@);
                match strategy_option {
                    Some(o) => {
                        v.push(lit("-X"));
                        v.push(o.clone());
                        assert(texts(v@) =~= with_s + seq!["-X"@, o@]);
                    },
                    None => {},
                }
                let ghost with_x = texts(v@);
                v.push(target.clone());
                assert(texts(v@) =~= with_x.push(target@));
            },
            GitOp::MergeAbort => {
                v.push(lit("merge"));
                v.push(lit("--abort"));
            },
            GitOp::StashPush { include_untracked, message } => {
                v.push(lit("stash"));
                v.push(lit("push"));
                if *include_untracked {
                    v.push(lit("--include-untracked"));
                }
                let ghost base = texts(v@);
                v.push(lit("-m"));
                v.push(message.clone());
                assert(texts(v@) =~= base + seq!["-m"@, message@]);
            },
            GitOp::StashPop => {
                v.push(lit("stash"));
                v.push(lit("pop"));
                v.push(lit("--index"));
            },
        }
        assert(texts(v@) =~= args_of(self@));
        v
    }

    /// What the output of this command amounts to.
    pub fn reply(&self, out: &CommandOutput) -> (r: GitReply)
        ensures
            reply_of(*self, *out, r),
    {
        match self {
            GitOp::CurrentBranch => match git_current_branch(out) {
                Ok(b) => GitReply::Branch(b),
                Err(e) => GitReply::Failed(e),
            },
            GitOp::IsClean => match git_is_clean(out) {
                Ok(c) => GitReply::Clean(c),
                Err(e) => GitReply::Failed(e),
            },
            GitOp::Fetch { remote } => done_or(git_fetch_remote(out, remote.as_str())),
            GitOp::Divergence { target } => match git_divergence(out, "HEAD", target.as_str()) {
                Ok((a, b)) => GitReply::Counts(a, b),
                Err(e) => GitReply::Failed(e),
            },
            GitOp::MergeFfOnly { target } => done_or(git_merge_ff_only(out, target.as_str())),
            GitOp::MergeWithStrategy { target, .. } => done_or(git_merge_with_strategy(out, target.as_str())),
            GitOp::MergeAbort => done_or(git_merge_abort(out)),
            GitOp::StashPush { .. } => match git_stash_push(out) {
                Ok(b) => GitReply::Stashed(b),
                Err(e) => GitReply::Failed(e),
            },
            GitOp::StashPop => done_or(git_stash_pop(out)),
        }
    }
}

} // verus!
