//! Workspace configuration: the sections as they are written, and the
//! resolved configuration with every default filled in.
use vstd::prelude::*;

verus! {

/// Where the vendored tree lives and which branch it follows.
#[derive(Debug, Clone, Default)]
pub struct VendorSection {
    pub root: Option<String>,
    pub branch: Option<String>,
}

/// Where the patch registry is stored.
#[derive(Debug, Clone, Default)]
pub struct PatchRegistrySection {
    pub path: Option<String>,
}

/// The fork policy as written; every entry may be left out.
#[derive(Debug, Clone, Default)]
pub struct ForkSection {
    pub enabled: Option<bool>,
    pub upstream_remote: Option<String>,
    pub upstream_branch: Option<String>,
    pub local_remote: Option<String>,
    pub local_branch: Option<String>,
    pub require_clean_worktree: Option<bool>,
    pub abort_on_divergence: Option<bool>,
    pub auto_merge_upstream: Option<bool>,
    pub auto_stash_before_merge: Option<bool>,
    pub auto_merge_local: Option<bool>,
    pub auto_route_upstream: Option<bool>,
    pub merge_strategy: Option<String>,
    pub merge_strategy_option: Option<String>,
    pub silence_local_ahead_warning: Option<bool>,
}

/// The configuration file as written.
#[derive(Debug, Clone, Default)]
pub struct RawConfig {
    pub vendor: VendorSection,
    pub patch_registry: PatchRegistrySection,
    pub fork: ForkSection,
}

/// The resolved configuration.
#[derive(Debug, Clone)]
pub struct Config {
    pub vendor_root: String,
    pub vendor_branch: String,
    pub patch_registry_path: String,
    pub fork: ForkConfig,
}

/// How the fork is kept in step with its two remotes.
#[derive(Debug, Clone)]
pub struct ForkConfig {
    pub enabled: bool,
    pub upstream_remote: String,
    pub upstream_branch: String,
    pub local_remote: String,
    pub local_branch: String,
    pub require_clean_worktree: bool,
    pub abort_on_divergence: bool,
    pub auto_merge_upstream: bool,
    pub auto_stash_before_merge: bool,
    pub auto_merge_local: bool,
    /// Skip, rather than fall back to a strategy merge, when the upstream
    /// fast-forward fails.
    pub auto_route_upstream: bool,
    pub merge_strategy: Option<String>,
    pub merge_strategy_option: Option<String>,
    pub silence_local_ahead_warning: bool,
}

/// The text of `o`, or `d` where it is absent.
pub open spec fn text_or(o: Option<String>, d: Seq<char>) -> Seq<char> {
    match o {
        Some(s) => s@,
        None => d,
    }
}

/// The flag `o`, or `d` where it is absent.
pub open spec fn flag_or(o: Option<bool>, d: bool) -> bool {
    match o {
        Some(b) => b,
        None => d,
    }
}

/// `p` joined onto `base` as `Path::join` does on Unix: an absolute `p`
/// replaces `base`; otherwise a separator is put between them where `base`
/// is not empty and does not already end with one.
pub open spec fn join_path(base: Seq<char>, p: Seq<char>) -> Seq<char> {
    if p.len() > 0 && p[0] == '/' {
        p
    } else if base.len() == 0 || base.last() == '/' {
        base + p
    } else {
        base + "/"@ + p
    }
}

/// Joins `p` onto `base` as `Path::join` does on Unix.
pub fn join(base: &str, p: &str) -> (r: String)
    ensures
        r@ == join_path(base@, p@),
{
    let pl = p.unicode_len();
    if pl > 0 && p.get_char(0) == '/' {
        return String::from_str(p);
    }
    let bl = base.unicode_len();
    let mut s = String::from_str(base);
    if bl > 0 && base.get_char(bl - 1) != '/' {
        s.append("/");
    }
    s.append(p);
    s
}

fn text_or_else(o: &Option<String>, d: &str) -> (r: String)
    ensures
        r@ == text_or(*o, d@),
{
    match o {
        Some(s) => s.clone(),
        None => String::from_str(d),
    }
}

fn clone_text(o: &Option<String>) -> (r: Option<String>)
    ensures
        r == *o,
{
    match o {
        Some(s) => Some(s.clone()),
        None => None,
    }
}

fn flag_or_else(o: Option<bool>, d: bool) -> (r: bool)
    ensures
        r == flag_or(o, d),
{
    match o {
        Some(b) => b,
        None => d,
    }
}

impl ForkConfig {
    /// The fork policy with the defaults filled in: remotes `origin` and
    /// `upstream`, both branches the vendor branch, a clean tree required,
    /// abort on divergence, stash before a merge, everything else off.
    pub fn from_section(section: &ForkSection, vendor_branch: &str) -> (r: Self)
        ensures
            r.enabled == flag_or(section.enabled, false),
            r.upstream_remote@ == text_or(section.upstream_remote, "upstream"@),
            r.upstream_branch@ == text_or(section.upstream_branch, vendor_branch@),
            r.local_remote@ == text_or(section.local_remote, "origin"@),
            r.local_branch@ == text_or(section.local_branch, vendor_branch@),
            r.require_clean_worktree == flag_or(section.require_clean_worktree, true),
            r.abort_on_divergence == flag_or(section.abort_on_divergence, true),
            r.auto_merge_upstream == flag_or(section.auto_merge_upstream, false),
            r.auto_stash_before_merge == flag_or(section.auto_stash_before_merge, true),
            r.auto_merge_local == flag_or(section.auto_merge_local, false),
            r.auto_route_upstream == flag_or(section.auto_route_upstream, false),
            r.merge_strategy == section.merge_strategy,
            r.merge_strategy_option == section.merge_strategy_option,
            r.silence_local_ahead_warning == flag_or(section.silence_local_ahead_warning, false),
    {
        ForkConfig {
            enabled: flag_or_else(section.enabled, false),
            upstream_remote: text_or_else(&section.upstream_remote, "upstream"),
            upstream_branch: text_or_else(&section.upstream_branch, vendor_branch),
            local_remote: text_or_else(&section.local_remote, "origin"),
            local_branch: text_or_else(&section.local_branch, vendor_branch),
            require_clean_worktree: flag_or_else(section.require_clean_worktree, true),
            abort_on_divergence: flag_or_else(section.abort_on_divergence, true),
            auto_merge_upstream: flag_or_else(section.auto_merge_upstream, false),
            auto_stash_before_merge: flag_or_else(section.auto_stash_before_merge, true),
            auto_merge_local: flag_or_else(section.auto_merge_local, false),
            auto_route_upstream: flag_or_else(section.auto_route_upstream, false),
            merge_strategy: clone_text(&section.merge_strategy),
            merge_strategy_option: clone_text(&section.merge_strategy_option),
            silence_local_ahead_warning: flag_or_else(section.silence_local_ahead_warning, false),
        }
    }
}

impl Config {
    /// The configuration with defaults filled in: vendor tree `vendor/codex`
    /// on branch `main`, registry at `patch-registry/registry.json`.
    pub fn from_raw(raw: &RawConfig) -> (r: Self)
        ensures
            r.vendor_root@ == text_or(raw.vendor.root, "vendor/codex"@),
            r.vendor_branch@ == text_or(raw.vendor.branch, "main"@),
            r.patch_registry_path@ == text_or(raw.patch_registry.path, "patch-registry/registry.json"@),
            r.fork.enabled == flag_or(raw.fork.enabled, false),
            r.fork.upstream_remote@ == text_or(raw.fork.upstream_remote, "upstream"@),
            r.fork.upstream_branch@ == text_or(raw.fork.upstream_branch, r.vendor_branch@),
            r.fork.local_remote@ == text_or(raw.fork.local_remote, "origin"@),
            r.fork.local_branch@ == text_or(raw.fork.local_branch, r.vendor_branch@),
            r.fork.require_clean_worktree == flag_or(raw.fork.require_clean_worktree, true),
            r.fork.abort_on_divergence == flag_or(raw.fork.abort_on_divergence, true),
            r.fork.auto_merge_upstream == flag_or(raw.fork.auto_merge_upstream, false),
            r.fork.auto_stash_before_merge == flag_or(raw.fork.auto_stash_before_merge, true),
            r.fork.auto_merge_local == flag_or(raw.fork.auto_merge_local, false),
            r.fork.auto_route_upstream == flag_or(raw.fork.auto_route_upstream, false),
            r.fork.merge_strategy == raw.fork.merge_strategy,
            r.fork.merge_strategy_option == raw.fork.merge_strategy_option,
            r.fork.silence_local_ahead_warning == flag_or(raw.fork.silence_local_ahead_warning, false),
    {
        let vendor_root = text_or_else(&raw.vendor.root, "vendor/codex");
        let vendor_branch = text_or_else(&raw.vendor.branch, "main");
        let patch_registry_path = text_or_else(&raw.patch_registry.path, "patch-registry/registry.json");
        let fork = ForkConfig::from_section(&raw.fork, vendor_branch.as_str());
        Config { vendor_root, vendor_branch, patch_registry_path, fork }
    }

    /// The vendored tree's directory under the workspace `root`.
    pub fn vendor_dir(&self, root: &str) -> (r: String)
        ensures
            r@ == join_path(root@, self.vendor_root@),
    {
        join(root, self.vendor_root.as_str())
    }

    /// The registry file's path under the workspace `root`.
    pub fn registry_path(&self, root: &str) -> (r: String)
        ensures
            r@ == join_path(root@, self.patch_registry_path@),
    {
        join(root, self.patch_registry_path.as_str())
    }
}

} // verus!
