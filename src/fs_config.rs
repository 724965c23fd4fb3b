//! The control-plane configuration: where the workspace, the fork's
//! repository and its build live, and which remotes it follows.
use vstd::prelude::*;
use crate::config::{join, join_path, text_or};

verus! {

/// `[workspace]` as written.
#[derive(Debug, Clone, Default)]
pub struct WorkspaceSection {
    pub root: Option<String>,
}

/// `[repo]` as written.
#[derive(Debug, Clone, Default)]
pub struct RepoSection {
    pub path: Option<String>,
    pub local_remote: Option<String>,
    pub local_branch: Option<String>,
    pub upstream_remote: Option<String>,
    pub upstream_branch: Option<String>,
}

/// `[build]` as written.
#[derive(Debug, Clone, Default)]
pub struct BuildSection {
    pub profile: Option<String>,
    pub workspace: Option<String>,
    pub binary_relpath: Option<String>,
}

/// The control-plane configuration file as written.
#[derive(Debug, Clone, Default)]
pub struct RawForksmithConfig {
    pub workspace: Option<WorkspaceSection>,
    pub repo: Option<RepoSection>,
    pub build: Option<BuildSection>,
}

/// The resolved control-plane configuration; paths are resolved against
/// the configuration file's directory.
#[derive(Debug, Clone)]
pub struct ForksmithConfig {
    pub workspace_root: String,
    pub repo_path: String,
    pub local_remote: String,
    pub local_branch: String,
    pub upstream_remote: String,
    pub upstream_branch: String,
    pub build_profile: String,
    pub build_workspace: String,
    pub binary_relpath: String,
}

/// `value` resolved against `base`: kept where absolute, else joined on.
pub fn resolve_path(base: &str, value: &str) -> (r: String)
    ensures
        r@ == join_path(base@, value@),
{
    join(base, value)
}

fn entry<T>(o: &Option<T>) -> (r: Option<&T>)
    ensures
        match o {
            Some(v) => r == Some(v),
            None => r is None,
        },
{
    match o {
        Some(v) => Some(v),
        None => None,
    }
}

fn or_text(o: Option<&Option<String>>, d: &str) -> (r: String)
    ensures
        r@ == match o {
            Some(Some(s)) => s@,
            _ => d@,
        },
{
    match o {
        Some(Some(s)) => s.clone(),
        _ => String::from_str(d),
    }
}

/// An entry of `[workspace]`, `[repo]` or `[build]`, absent where its section is.
pub open spec fn workspace_entry(raw: RawForksmithConfig) -> Option<String> {
    match raw.workspace {
        Some(w) => w.root,
        None => None,
    }
}

pub open spec fn repo_entry(raw: RawForksmithConfig, pick: spec_fn(RepoSection) -> Option<String>) -> Option<String> {
    match raw.repo {
        Some(s) => pick(s),
        None => None,
    }
}

pub open spec fn build_entry(raw: RawForksmithConfig, pick: spec_fn(BuildSection) -> Option<String>) -> Option<String> {
    match raw.build {
        Some(b) => pick(b),
        None => None,
    }
}

/// `r` is `raw` resolved against the directory `dir` with the defaults:
/// workspace `.`, repository `vendor/codex` under it, remotes `origin` and
/// `upstream` on `main`, build profile `release` in `codex-rs` under the
/// repository, binary `codex-rs/target/release/codex`.
pub open spec fn resolved_from(dir: Seq<char>, raw: RawForksmithConfig, r: ForksmithConfig) -> bool {
    &&& r.workspace_root@ == join_path(dir, text_or(workspace_entry(raw), "."@))
    &&& r.repo_path@ == join_path(r.workspace_root@, text_or(repo_entry(raw, |s: RepoSection| s.path), "vendor/codex"@))
    &&& r.local_remote@ == text_or(repo_entry(raw, |s: RepoSection| s.local_remote), "origin"@)
    &&& r.local_branch@ == text_or(repo_entry(raw, |s: RepoSection| s.local_branch), "main"@)
    &&& r.upstream_remote@ == text_or(repo_entry(raw, |s: RepoSection| s.upstream_remote), "upstream"@)
    &&& r.upstream_branch@ == text_or(repo_entry(raw, |s: RepoSection| s.upstream_branch), "main"@)
    &&& r.build_profile@ == text_or(build_entry(raw, |b: BuildSection| b.profile), "release"@)
    &&& r.build_workspace@ == join_path(r.repo_path@, text_or(build_entry(raw, |b: BuildSection| b.workspace), "codex-rs"@))
    &&& r.binary_relpath@ == text_or(
        build_entry(raw, |b: BuildSection| b.binary_relpath),
        "codex-rs/target/release/codex"@,
    )
}

impl ForksmithConfig {
    /// The configuration read from a file in `config_dir`.
    pub fn from_raw(config_dir: &str, raw: &RawForksmithConfig) -> (r: Self)
        ensures
            resolved_from(config_dir@, *raw, r),
    {
        let ws = entry(&raw.workspace);
        let repo = entry(&raw.repo);
        let build = entry(&raw.build);
        let root = match ws {
            Some(w) => or_text(Some(&w.root), "."),
            None => or_text(None, "."),
        };
        let workspace_root = resolve_path(config_dir, root.as_str());
        let (path, local_remote, local_branch, upstream_remote, upstream_branch) = match repo {
            Some(s) => (
                or_text(Some(&s.path), "vendor/codex"),
                or_text(Some(&s.local_remote), "origin"),
                or_text(Some(&s.local_branch), "main"),
                or_text(Some(&s.upstream_remote), "upstream"),
                or_text(Some(&s.upstream_branch), "main"),
            ),
            None => (
                or_text(None, "vendor/codex"),
                or_text(None, "origin"),
                or_text(None, "main"),
                or_text(None, "upstream"),
                or_text(None, "main"),
            ),
        };
        let repo_path = resolve_path(workspace_root.as_str(), path.as_str());
        let (profile, workspace, binary_relpath) = match build {
            Some(b) => (
                or_text(Some(&b.profile), "release"),
                or_text(Some(&b.workspace), "codex-rs"),
                or_text(Some(&b.binary_relpath), "codex-rs/target/release/codex"),
            ),
            None => (
                or_text(None, "release"),
                or_text(None, "codex-rs"),
                or_text(None, "codex-rs/target/release/codex"),
            ),
        };
        let build_workspace = resolve_path(repo_path.as_str(), workspace.as_str());
        ForksmithConfig {
            workspace_root,
            repo_path,
            local_remote,
            local_branch,
            upstream_remote,
            upstream_branch,
            build_profile: profile,
            build_workspace,
            binary_relpath,
        }
    }

    /// The configuration read from `codex-forksmith.toml` in the current
    /// directory: paths resolve against it.
    pub fn load_default(raw: &RawForksmithConfig) -> (r: Self)
        ensures
            resolved_from(Seq::empty(), *raw, r),
    {
        let r = Self::from_raw("", raw);
        proof {
            reveal_strlit("");
            assert(""@ =~= Seq::<char>::empty());
        }
        r
    }

    /// Where the built binary lies.
    pub fn repo_binary_path(&self) -> (r: String)
        ensures
            r@ == join_path(self.repo_path@, self.binary_relpath@),
    {
        join(self.repo_path.as_str(), self.binary_relpath.as_str())
    }
}

} // verus!
