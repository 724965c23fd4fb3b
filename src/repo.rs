//! Repository helpers of the control plane: each reads what one `git`
//! command printed, with its output trimmed.
use vstd::prelude::*;
use crate::git::{CommandError, CommandOutput, checked, read_trimmed, read_counts, range_of, failed_with, git_current_branch, git_head_commit, git_divergence};
use crate::text::{chars_of, trim, trimmed, is_line, has_trimmed_line};

verus! {

/// Why a path is not a repository to work on.
#[derive(Debug, Clone, PartialEq, Eq)]
pub enum RepoError {
    /// Nothing is at the path.
    Missing { repo: String },
    /// The path has no `.git`.
    NotARepository { repo: String },
}

/// Checks that `repo` exists and holds a `.git`.
pub fn ensure_repo(repo: &str, exists: bool, has_git_dir: bool) -> (r: Result<(), RepoError>)
    ensures
        !exists ==> (r matches Err(RepoError::Missing { repo: p }) && p@ == repo@),
        exists && !has_git_dir ==> (r matches Err(RepoError::NotARepository { repo: p }) && p@ == repo@),
        exists && has_git_dir ==> r is Ok,
{
    if !exists {
        return Err(RepoError::Missing { repo: String::from_str(repo) });
    }
    if !has_git_dir {
        return Err(RepoError::NotARepository { repo: String::from_str(repo) });
    }
    Ok(())
}

/// Reads `git rev-parse --abbrev-ref HEAD`: the current branch.
pub fn current_branch(out: &CommandOutput) -> (r: Result<String, CommandError>)
    ensures
        read_trimmed(r, "git rev-parse --abbrev-ref HEAD"@, *out),
{
    git_current_branch(out)
}

/// Reads `git rev-parse HEAD`: the commit `HEAD` stands on.
pub fn head_commit(out: &CommandOutput) -> (r: Result<String, CommandError>)
    ensures
        read_trimmed(r, "git rev-parse HEAD"@, *out),
{
    git_head_commit(out)
}

/// Reads `git fetch <remote>`.
pub fn fetch(out: &CommandOutput, remote: &str) -> (r: Result<(), CommandError>)
    ensures
        checked(r, "git fetch "@ + remote@, *out),
{
    crate::git::git_fetch_remote(out, remote)
}

/// Reads `git rev-list --left-right --count <base>...<other>`.
pub fn divergence(out: &CommandOutput, base: &str, other: &str) -> (r: Result<(u32, u32), CommandError>)
    ensures
        read_counts(r, "git rev-list --left-right --count "@ + range_of(base@, other@), *out),
{
    git_divergence(out, base, other)
}

/// Reads `git merge --ff-only <target>`.
pub fn fast_forward(out: &CommandOutput, target: &str) -> (r: Result<(), CommandError>)
    ensures
        checked(r, "git merge --ff-only "@ + target@, *out),
{
    crate::git::git_merge_ff_only(out, target)
}


/// Reads `git diff --name-only --diff-filter=U`: whether any path is unmerged.
pub fn has_unmerged_paths(out: &CommandOutput) -> (r: Result<bool, CommandError>)
    ensures
        out.success ==> r == Ok::<bool, CommandError>(trimmed(out.stdout@).len() > 0),
        !out.success ==> (r matches Err(e) && failed_with(e, "git diff --name-only --diff-filter=U"@, *out)),
{
    if !out.success {
        return Err(CommandError { command: String::from_str("git diff --name-only --diff-filter=U"), detail: out.stderr.clone() });
    }
    let t = trim(out.stdout.as_str());
    Ok(t.as_str().unicode_len() > 0)
}

/// `k` starts a line of `s`.
pub open spec fn line_start(s: Seq<char>, k: int) -> bool {
    0 <= k < s.len() && (k == 0 || s[k - 1] == '\n')
}

/// The line starting at `k` is an untracked entry of `status --porcelain`.
pub open spec fn untracked_at(s: Seq<char>, k: int) -> bool {
    line_start(s, k) && k + 1 < s.len() && s[k] == '?' && s[k + 1] == '?'
}

/// How many lines from position `i` on are entries of the kind `untracked`
/// says.
pub open spec fn entries_from(s: Seq<char>, i: int, untracked: bool) -> nat
    decreases s.len() - i,
{
    if i >= s.len() || i < 0 {
        0
    } else {
        entries_from(s, i + 1, untracked) + if line_start(s, i) && untracked_at(s, i) == untracked {
            1nat
        } else {
            0nat
        }
    }
}

/// Counts the entries of `git status --porcelain` output: `(tracked,
/// untracked)`, untracked being the lines that start with `??`.
pub fn status_counts(porcelain: &str) -> (r: (usize, usize))
    ensures
        r.0 == entries_from(porcelain@, 0, false),
        r.1 == entries_from(porcelain@, 0, true),
{
    let v = chars_of(porcelain);
    let n = v.len();
    let mut tracked_entries: usize = 0;
    let mut untracked: usize = 0;
    let mut k: usize = n;
    while k > 0
        invariant
            k <= n,
            n == v@.len(),
            v@ == porcelain@,
            tracked_entries == entries_from(v@, k as int, false),
            untracked == entries_from(v@, k as int, true),
            tracked_entries + untracked <= n - k,
        decreases k,
    {
        k = k - 1;
        let start = k == 0 || v[k - 1] == '\n';
        if start {
            if k + 1 < n && v[k] == '?' && v[k + 1] == '?' {
                untracked = untracked + 1;
            } else {
                tracked_entries = tracked_entries + 1;
            }
        }
    }
    (tracked_entries, untracked)
}


/// Reads `git remote`: whether `remote` is one of the names it lists, one
/// per line.
pub fn has_remote(out: &CommandOutput, remote: &str) -> (r: Result<bool, CommandError>)
    ensures
        out.success ==> r == Ok::<bool, CommandError>(has_trimmed_line(trimmed(out.stdout@), remote@)),
        !out.success ==> (r matches Err(e) && failed_with(e, "git remote"@, *out)),
{
    if !out.success {
        return Err(CommandError { command: String::from_str("git remote"), detail: out.stderr.clone() });
    }
    let text = trim(out.stdout.as_str());
    let v = chars_of(text.as_str());
    let ghost s = v@;
    let want = String::from_str(remote);
    let n = v.len();
    let mut i: usize = 0;
    while i < n
        invariant
            n == s.len(),
            s == v@,
            s == text@,
            out.success,
            text@ == trimmed(out.stdout@),
            want@ == remote@,
            i <= n,
            i < n ==> (i == 0 || s[i - 1] == '\n'),
            forall|a: int, b: int| is_line(s, a, b) && a < i ==> trimmed(#[trigger] s.subrange(a, b)) != remote@,
        decreases n - i,
    {
        let mut j = i;
        while j < n && v[j] != '\n'
            invariant
                n == s.len(),
                s == v@,
                i <= j <= n,
                forall|k: int| i <= k < j ==> s[k] != '\n',
            decreases n - j,
        {
            j = j + 1;
        }
        let line = text.as_str().substring_char(i, j);
        let t = trim(line);
        if t == want {
            assert(is_line(s, i as int, j as int));
            assert(trimmed(s.subrange(i as int, j as int)) == remote@);
            return Ok(true);
        }
        let next = if j < n {
            j + 1
        } else {
            n
        };
        proof {
            assert forall|a: int, b: int| is_line(s, a, b) && a < next implies trimmed(
                #[trigger] s.subrange(a, b),
            ) != remote@ by {
                if a > i {
                    assert(s[a - 1] == '\n');
                } else if a == i {
                    if b < j {
                        assert(s[b] == '\n');
                    } else if b > j {
                        assert(s[j as int] == '\n');
                    }
                }
            }
        }
        i = next;
    }
    Ok(false)
}


/// Whether a control-plane sync may go on over the tree's state.
#[derive(Debug, Clone, Copy, PartialEq, Eq, Structural)]
pub enum SyncCheck {
    /// The tree is clean.
    Proceed,
    /// A dry run over a dirty tree: it goes on, noting that a real sync
    /// would refuse.
    ProceedDirty,
    /// A real sync over a dirty tree is refused.
    Refuse,
}

/// A sync needs a clean tree; a dry run only notes a dirty one.
pub fn sync_check(dry_run: bool, clean: bool) -> (r: SyncCheck)
    ensures
        r == (if clean {
            SyncCheck::Proceed
        } else if dry_run {
            SyncCheck::ProceedDirty
        } else {
            SyncCheck::Refuse
        }),
{
    if clean {
        SyncCheck::Proceed
    } else if dry_run {
        SyncCheck::ProceedDirty
    } else {
        SyncCheck::Refuse
    }
}

/// A sync fast-forwards to upstream when it is behind, unless it is a dry run.
pub fn fast_forward_due(dry_run: bool, behind: u32) -> (r: bool)
    ensures
        r == (behind > 0 && !dry_run),
{
    behind > 0 && !dry_run
}

pub open spec fn flag_text(b: bool) -> Seq<char> {
    if b {
        "true"@
    } else {
        "false"@
    }
}

/// `names` joined with commas.
pub open spec fn comma_joined(names: Seq<Seq<char>>) -> Seq<char>
    decreases names.len(),
{
    if names.len() == 0 {
        Seq::empty()
    } else if names.len() == 1 {
        names[0]
    } else {
        comma_joined(names.drop_last()) + ","@ + names.last()
    }
}

/// The machine-readable line a sync ends with; upstream counts as caught up
/// once the fast-forward was applied.
pub open spec fn sync_result_text(
    dry_run: bool,
    fetched: Seq<Seq<char>>,
    ff_applied: bool,
    behind_local: u32,
    behind_upstream: u32,
) -> Seq<char> {
    "SYNC_RESULT dry_run="@ + flag_text(dry_run) + " fetched="@ + comma_joined(fetched) + " ff_applied="@
        + flag_text(ff_applied) + " behind_local="@ + crate::text::decimal(behind_local as nat)
        + " behind_upstream="@ + crate::text::decimal(if ff_applied { 0nat } else { behind_upstream as nat })
}

fn flag_string(b: bool) -> (r: String)
    ensures
        r@ == flag_text(b),
{
    if b {
        String::from_str("true")
    } else {
        String::from_str("false")
    }
}

fn join_commas(names: &Vec<String>) -> (r: String)
    ensures
        r@ == comma_joined(names@.map_values(|n: String| n@)),
{
    let mut s = String::new();
    let mut i: usize = 0;
    while i < names.len()
        invariant
            i <= names@.len(),
            s@ == comma_joined(names@.subrange(0, i as int).map_values(|n: String| n@)),
        decreases names@.len() - i,
    {
        let ghost prev = names@.subrange(0, i as int).map_values(|n: String| n@);
        let ghost next = names@.subrange(0, i + 1).map_values(|n: String| n@);
        assert(next.drop_last() =~= prev);
        if i > 0 {
            s.append(",");
        } else {
            proof {
                assert(prev =~= Seq::<Seq<char>>::empty());
            }
        }
        s.append(names[i].as_str());
        i = i + 1;
    }
    assert(names@.subrange(0, i as int) =~= names@);
    s
}

/// The machine-readable line a control-plane sync ends with.
pub fn sync_result_line(
    dry_run: bool,
    fetched: &Vec<String>,
    ff_applied: bool,
    behind_local: u32,
    behind_upstream: u32,
) -> (r: String)
    ensures
        r@ == sync_result_text(dry_run, fetched@.map_values(|n: String| n@), ff_applied, behind_local, behind_upstream),
{
    let mut s = String::from_str("SYNC_RESULT dry_run=");
    s.append(flag_string(dry_run).as_str());
    s.append(" fetched=");
    s.append(join_commas(fetched).as_str());
    s.append(" ff_applied=");
    s.append(flag_string(ff_applied).as_str());
    s.append(" behind_local=");
    s.append(crate::text::decimal_string(behind_local).as_str());
    s.append(" behind_upstream=");
    let after: u32 = if ff_applied {
        0
    } else {
        behind_upstream
    };
    s.append(crate::text::decimal_string(after).as_str());
    s
}

} // verus!
