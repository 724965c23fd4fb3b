//! The status report: what the fork's working tree looks like, and whether
//! that is a state to stop on.
use vstd::prelude::*;
use crate::fs_config::ForksmithConfig;
use crate::git::CommandError;

verus! {

/// The fork's state as the status command shows it.
#[derive(Debug, Clone)]
pub struct StatusReport {
    pub workspace_root: String,
    pub repo: String,
    pub build_dir: String,
    pub branch: String,
    pub head: String,
    pub clean: bool,
    pub has_conflicts: bool,
    pub tracked_count: usize,
    pub untracked_count: usize,
    pub local_ref: String,
    pub upstream_ref: String,
    pub local_ahead: u32,
    pub local_behind: u32,
    pub upstream_ahead: u32,
    pub upstream_behind: u32,
    pub binary_path: String,
    pub binary_exists: bool,
}

/// What was read from the repository for a status report.
#[derive(Debug)]
pub struct RepoFacts {
    pub branch: String,
    pub head: String,
    pub clean: bool,
    pub has_conflicts: bool,
    pub tracked_count: usize,
    pub untracked_count: usize,
    /// `(ahead, behind)` against the fork-of-record branch, if it could be read.
    pub local: Result<(u32, u32), CommandError>,
    /// `(ahead, behind)` against upstream, if it could be read.
    pub upstream: Result<(u32, u32), CommandError>,
    pub binary_exists: bool,
}

/// Why the status check failed.
#[derive(Debug, Clone, PartialEq, Eq)]
pub enum StatusError {
    /// There are unresolved merge conflicts, or the binary is missing.
    CheckFailed,
}

/// The counts, or none where they could not be read.
pub open spec fn counts_or_zero(c: Result<(u32, u32), CommandError>) -> (u32, u32) {
    match c {
        Ok(v) => v,
        Err(_) => (0, 0),
    }
}

fn counts(c: &Result<(u32, u32), CommandError>) -> (r: (u32, u32))
    ensures
        r == counts_or_zero(*c),
{
    match c {
        Ok(v) => *v,
        Err(_) => (0, 0),
    }
}

fn counts_warning(target: &String, c: &Result<(u32, u32), CommandError>, warnings: &mut Vec<String>)
    ensures
        match c {
            Ok(_) => final(warnings)@ == old(warnings)@,
            Err(e) => final(warnings)@.len() == old(warnings)@.len() + 1 && final(warnings)@.drop_last()
                == old(warnings)@ && final(warnings)@.last()@ == divergence_warning(target@, *e),
        },
{
    match c {
        Ok(_) => {},
        Err(e) => {
            let mut w = String::from_str("unable to compute divergence for ");
            w.append(target.as_str());
            w.append(": ");
            let m = e.message();
            w.append(m.as_str());
            warnings.push(w);
            assert(warnings@.drop_last() =~= old(warnings)@);
        },
    }
}

/// The warning for counts against `target` that could not be read.
pub open spec fn divergence_warning(target: Seq<char>, e: CommandError) -> Seq<char> {
    "unable to compute divergence for "@ + target + ": "@ + e.command@ + " failed: "@ + e.detail@
}

/// The warnings for the counts that could not be read, in order.
pub open spec fn gather_warnings(
    local_ref: Seq<char>,
    local: Result<(u32, u32), CommandError>,
    upstream_ref: Seq<char>,
    upstream: Result<(u32, u32), CommandError>,
) -> Seq<Seq<char>> {
    let first = match local {
        Ok(_) => Seq::empty(),
        Err(e) => seq![divergence_warning(local_ref, e)],
    };
    match upstream {
        Ok(_) => first,
        Err(e) => first.push(divergence_warning(upstream_ref, e)),
    }
}

/// `local_remote/local_branch`, as the status report names it.
pub open spec fn ref_name(remote: Seq<char>, branch: Seq<char>) -> Seq<char> {
    remote + "/"@ + branch
}

fn ref_of(remote: &String, branch: &String) -> (r: String)
    ensures
        r@ == ref_name(remote@, branch@),
{
    let mut s = remote.clone();
    s.append("/");
    s.append(branch.as_str());
    s
}

impl StatusReport {
    /// The report on a repository, with the warnings for counts that could
    /// not be read (they are shown as zero).
    pub fn gather(cfg: &ForksmithConfig, facts: RepoFacts) -> (r: (Self, Vec<String>))
        ensures
            r.0.workspace_root == cfg.workspace_root,
            r.0.repo == cfg.repo_path,
            r.0.build_dir == cfg.build_workspace,
            r.0.branch == facts.branch,
            r.0.head == facts.head,
            r.0.clean == facts.clean,
            r.0.has_conflicts == facts.has_conflicts,
            r.0.tracked_count == facts.tracked_count,
            r.0.untracked_count == facts.untracked_count,
            r.0.local_ref@ == ref_name(cfg.local_remote@, cfg.local_branch@),
            r.0.upstream_ref@ == ref_name(cfg.upstream_remote@, cfg.upstream_branch@),
            (r.0.local_ahead, r.0.local_behind) == counts_or_zero(facts.local),
            (r.0.upstream_ahead, r.0.upstream_behind) == counts_or_zero(facts.upstream),
            r.0.binary_path@ == crate::config::join_path(cfg.repo_path@, cfg.binary_relpath@),
            r.0.binary_exists == facts.binary_exists,
            r.1@.map_values(|w: String| w@) == gather_warnings(r.0.local_ref@, facts.local, r.0.upstream_ref@, facts.upstream),
    {
        let local_ref = ref_of(&cfg.local_remote, &cfg.local_branch);
        let upstream_ref = ref_of(&cfg.upstream_remote, &cfg.upstream_branch);
        let mut warnings: Vec<String> = Vec::new();
        counts_warning(&local_ref, &facts.local, &mut warnings);
        let ghost after_local = warnings@;
        counts_warning(&upstream_ref, &facts.upstream, &mut warnings);
        proof {
            let want = gather_warnings(local_ref@, facts.local, upstream_ref@, facts.upstream);
            let got = warnings@.map_values(|w: String| w@);
            let first = after_local.map_values(|w: String| w@);
            if facts.local is Err {
                assert(first =~= seq![divergence_warning(local_ref@, facts.local->Err_0)]);
            } else {
                assert(first =~= Seq::<Seq<char>>::empty());
            }
            if facts.upstream is Err {
                let e = facts.upstream->Err_0;
                assert(warnings@ =~= after_local.push(warnings@.last()));
                assert(got =~= first.push(divergence_warning(upstream_ref@, e)));
            }
            assert(got =~= want);
        }
        let (local_ahead, local_behind) = counts(&facts.local);
        let (upstream_ahead, upstream_behind) = counts(&facts.upstream);
        let report = StatusReport {
            workspace_root: cfg.workspace_root.clone(),
            repo: cfg.repo_path.clone(),
            build_dir: cfg.build_workspace.clone(),
            branch: facts.branch,
            head: facts.head,
            clean: facts.clean,
            has_conflicts: facts.has_conflicts,
            tracked_count: facts.tracked_count,
            untracked_count: facts.untracked_count,
            local_ref,
            upstream_ref,
            local_ahead,
            local_behind,
            upstream_ahead,
            upstream_behind,
            binary_path: cfg.repo_binary_path(),
            binary_exists: facts.binary_exists,
        };
        (report, warnings)
    }

    /// The state is one to stop on: merge conflicts, or no binary.
    pub fn should_fail(&self) -> (r: bool)
        ensures
            r == (self.has_conflicts || !self.binary_exists),
    {
        self.has_conflicts || !self.binary_exists
    }
}

/// The status check: fails where the report shows a state to stop on.
pub fn run(report: &StatusReport) -> (r: Result<(), StatusError>)
    ensures
        r is Err <==> report.has_conflicts || !report.binary_exists,
{
    if report.should_fail() {
        Err(StatusError::CheckFailed)
    } else {
        Ok(())
    }
}

} // verus!
