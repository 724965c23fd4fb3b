//! The patch dispatcher's engines: how each is invoked and how its result is
//! normalised into a match count and an outcome label.
use vstd::prelude::*;
use crate::config::{join, join_path};
use crate::git::{CommandError, CommandOutput};
use crate::registry::EngineKind;
use crate::text::{count_lines, line_count};

verus! {

/// An engine's result for one patch set: how many matches, if it counts
/// them, and its outcome label.
#[derive(Debug, Clone)]
pub struct EngineResult {
    pub matches: Option<u32>,
    pub status: String,
}

/// Whether the structural engine previews or rewrites.
#[derive(Debug, Clone, Copy, PartialEq, Eq, Structural)]
pub enum AstMode {
    DryRun,
    Apply,
}

/// What one run of the structural engine printed.
#[derive(Debug, Clone)]
pub struct AstRunSummary {
    pub mode: AstMode,
    pub stdout: String,
    pub stderr: String,
    pub duration_ms: u128,
}

/// A run of the structural engine: it ran, or it was skipped and why.
#[derive(Debug, Clone)]
pub enum AstRunOutcome {
    Applied(AstRunSummary),
    Skipped { reason: String },
}

/// Why a patch set could not be applied.
#[derive(Debug, Clone)]
pub enum EngineError {
    /// A rule file of a raw-diff patch set did not apply; the rest of the
    /// set is not attempted.
    RuleFailed { rule: String, error: CommandError },
}

impl EngineKind {
    /// The engine's name as reports show it.
    pub fn label(&self) -> (r: String)
        ensures
            r@ == engine_label(*self),
    {
        match self {
            EngineKind::Patch => String::from_str("Patch"),
            EngineKind::AstGrep => String::from_str("AstGrep"),
            EngineKind::Coccinelle => String::from_str("Coccinelle"),
        }
    }
}

pub open spec fn engine_label(k: EngineKind) -> Seq<char> {
    match k {
        EngineKind::Patch => "Patch"@,
        EngineKind::AstGrep => "AstGrep"@,
        EngineKind::Coccinelle => "Coccinelle"@,
    }
}

/// The label an engine run is reported under.
pub open spec fn mode_label(dry_run: bool) -> Seq<char> {
    if dry_run {
        "dry-run"@
    } else {
        "applied"@
    }
}

/// The arguments `git` applies one raw-diff rule with, read from standard
/// input: three-way, tolerant of empty patches and of whitespace; a dry run
/// only checks.
pub open spec fn raw_diff_args_of(dry_run: bool) -> Seq<Seq<char>> {
    let base = seq!["apply"@, "--3way"@, "--allow-empty"@, "--whitespace=nowarn"@];
    if dry_run {
        base.push("--check"@)
    } else {
        base
    }
}

/// The arguments `git` applies one raw-diff rule with.
pub fn raw_diff_args(dry_run: bool) -> (r: Vec<String>)
    ensures
        r@.map_values(|a: String| a@) == raw_diff_args_of(dry_run),
{
    let mut v: Vec<String> = Vec::new();
    v.push(String::from_str("apply"));
    v.push(String::from_str("--3way"));
    v.push(String::from_str("--allow-empty"));
    v.push(String::from_str("--whitespace=nowarn"));
    if dry_run {
        v.push(String::from_str("--check"));
    }
    assert(v@.map_values(|a: String| a@) =~= raw_diff_args_of(dry_run));
    v
}

/// Where each rule file is read from: relative rules lie under the
/// workspace root.
pub fn rule_paths(root: &str, rules: &Vec<String>) -> (r: Vec<String>)
    ensures
        r@.len() == rules@.len(),
        forall|i: int| 0 <= i < rules@.len() ==> (#[trigger] r@[i])@ == join_path(root@, rules@[i]@),
{
    let mut v: Vec<String> = Vec::new();
    let mut i: usize = 0;
    while i < rules.len()
        invariant
            i <= rules@.len(),
            v@.len() == i,
            forall|k: int| 0 <= k < i ==> (#[trigger] v@[k])@ == join_path(root@, rules@[k]@),
        decreases rules@.len() - i,
    {
        v.push(join(root, rules[i].as_str()));
        i = i + 1;
    }
    v
}

/// `r` is the raw-diff engine's report on `outcomes`, the results of its
/// rules applied in order until one fails: the first failure fails the whole
/// set, else every rule counts as a match.
pub open spec fn raw_diff_reported(
    rules: Seq<String>,
    outcomes: Seq<Result<(), CommandError>>,
    dry_run: bool,
    r: Result<EngineResult, EngineError>,
) -> bool {
    &&& (forall|i: int| 0 <= i < outcomes.len() ==> outcomes[i] is Ok) ==> (r matches Ok(e)
        && e.matches == Some(outcomes.len() as u32) && e.status@ == mode_label(dry_run))
    &&& r matches Err(EngineError::RuleFailed { rule, error }) ==> exists|i: int|
        0 <= i < outcomes.len() && outcomes[i] == Err::<(), CommandError>(error) && rule
            == rules[i] && forall|j: int| 0 <= j < i ==> (#[trigger] outcomes[j]) is Ok
    &&& r is Err <==> exists|i: int| 0 <= i < outcomes.len() && (#[trigger] outcomes[i]) is Err
}

/// The raw-diff engine's result from the outcomes of its rules, applied in
/// order until one fails: the first failure fails the whole set, else every
/// rule counts as a match.
pub fn raw_diff_result(
    rules: &Vec<String>,
    outcomes: &Vec<Result<(), CommandError>>,
    dry_run: bool,
) -> (r: Result<EngineResult, EngineError>)
    requires
        outcomes@.len() <= rules@.len(),
        outcomes@.len() <= u32::MAX,
    ensures
        raw_diff_reported(rules@, outcomes@, dry_run, r),
{
    let mut i: usize = 0;
    while i < outcomes.len()
        invariant
            i <= outcomes@.len(),
            outcomes@.len() <= rules@.len(),
            forall|j: int| 0 <= j < i ==> (#[trigger] outcomes@[j]) is Ok,
        decreases outcomes@.len() - i,
    {
        match &outcomes[i] {
            Ok(()) => {},
            Err(e) => {
                return Err(EngineError::RuleFailed { rule: rules[i].clone(), error: e.duplicate() });
            },
        }
        i = i + 1;
    }
    let status = if dry_run {
        String::from_str("dry-run")
    } else {
        String::from_str("applied")
    };
    Ok(EngineResult { matches: Some(outcomes.len() as u32), status })
}

/// A dry run and an apply run of the same raw-diff rules, on a tree where
/// each rule fares alike in both, report the same match count, and one fails
/// exactly where the other does.
pub proof fn lemma_dry_run_counts_as_apply(
    rules: Seq<String>,
    outcomes: Seq<Result<(), CommandError>>,
    dry: Result<EngineResult, EngineError>,
    wet: Result<EngineResult, EngineError>,
)
    requires
        outcomes.len() <= u32::MAX,
        raw_diff_reported(rules, outcomes, true, dry),
        raw_diff_reported(rules, outcomes, false, wet),
    ensures
        dry is Ok <==> wet is Ok,
        dry is Ok ==> dry->Ok_0.matches == wet->Ok_0.matches,
        dry is Ok ==> dry->Ok_0.matches == Some(outcomes.len() as u32),
{
}


/// How a structural-engine run is reported: skipped where its rule
/// configuration or its target is missing or the tool failed, else what it
/// printed.
pub open spec fn ast_outcome_of(
    config_exists: bool,
    target_exists: bool,
    config_path: Seq<char>,
    target: Seq<char>,
    out: CommandOutput,
    exit_text: Seq<char>,
    mode: AstMode,
    r: AstRunOutcome,
) -> bool {
    if !config_exists {
        r matches AstRunOutcome::Skipped { reason } && reason@ == "rule config "@ + config_path + " missing"@
    } else if !target_exists {
        r matches AstRunOutcome::Skipped { reason } && reason@ == "target "@ + target + " missing"@
    } else if !out.success {
        r matches AstRunOutcome::Skipped { reason } && reason@ == "ast-grep exit "@ + exit_text
    } else {
        r matches AstRunOutcome::Applied(s) && s.mode == mode && s.stdout == out.stdout && s.stderr
            == out.stderr
    }
}

/// Reads one structural-engine run. `exit_text` is how the tool's exit
/// status reads, for the skip reason.
pub fn ast_outcome(
    config_exists: bool,
    target_exists: bool,
    config_path: &str,
    target: &str,
    out: CommandOutput,
    exit_text: &str,
    mode: AstMode,
    duration_ms: u128,
) -> (r: AstRunOutcome)
    ensures
        ast_outcome_of(config_exists, target_exists, config_path@, target@, out, exit_text@, mode, r),
{
    if !config_exists {
        let mut reason = String::from_str("rule config ");
        reason.append(config_path);
        reason.append(" missing");
        return AstRunOutcome::Skipped { reason };
    }
    if !target_exists {
        let mut reason = String::from_str("target ");
        reason.append(target);
        reason.append(" missing");
        return AstRunOutcome::Skipped { reason };
    }
    if !out.success {
        let mut reason = String::from_str("ast-grep exit ");
        reason.append(exit_text);
        return AstRunOutcome::Skipped { reason };
    }
    AstRunOutcome::Applied(AstRunSummary { mode, stdout: out.stdout, stderr: out.stderr, duration_ms })
}

/// The match count of a structural preview: one per line it printed,
/// saturating at the largest count.
pub open spec fn preview_count(s: AstRunSummary) -> u32 {
    if line_count(s.stdout@) <= u32::MAX {
        line_count(s.stdout@) as u32
    } else {
        u32::MAX
    }
}

/// `"skipped: "` and the reason.
pub open spec fn skipped_label(reason: Seq<char>) -> Seq<char> {
    "skipped: "@ + reason
}

fn skipped_text(reason: &String) -> (r: String)
    ensures
        r@ == skipped_label(reason@),
{
    let mut s = String::from_str("skipped: ");
    s.append(reason.as_str());
    s
}

/// `r` is the structural engine's report from its preview and, unless this
/// is a dry run, its apply pass: the preview's line count is the match count
/// in both modes; a skipped preview skips the set with its reason.
pub open spec fn structural_reported(
    preview: AstRunOutcome,
    applied: Option<AstRunOutcome>,
    dry_run: bool,
    r: EngineResult,
) -> bool {
    match preview {
        AstRunOutcome::Skipped { reason } => r.matches is None && r.status@ == skipped_label(reason@),
        AstRunOutcome::Applied(s) => r.matches == Some(preview_count(s)) && r.status@ == if dry_run {
            "dry-run"@
        } else {
            match applied {
                Some(AstRunOutcome::Skipped { reason }) => skipped_label(reason@),
                _ => "applied"@,
            }
        },
    }
}

/// The structural engine's result from its preview and apply passes.
pub fn structural_result(preview: &AstRunOutcome, applied: &Option<AstRunOutcome>, dry_run: bool) -> (r: EngineResult)
    ensures
        structural_reported(*preview, *applied, dry_run, r),
{
    match preview {
        AstRunOutcome::Skipped { reason } => EngineResult { matches: None, status: skipped_text(reason) },
        AstRunOutcome::Applied(s) => {
            let lines = count_lines(s.stdout.as_str());
            let count: u32 = if lines <= u32::MAX as usize {
                lines as u32
            } else {
                u32::MAX
            };
            let status = if dry_run {
                String::from_str("dry-run")
            } else {
                match applied {
                    Some(AstRunOutcome::Skipped { reason }) => skipped_text(reason),
                    _ => String::from_str("applied"),
                }
            };
            EngineResult { matches: Some(count), status }
        },
    }
}

/// A structural dry run and an apply run that start from the same preview
/// report the same match count, whatever the apply pass did.
pub proof fn lemma_structural_dry_run_counts_as_apply(
    preview: AstRunOutcome,
    applied: Option<AstRunOutcome>,
    dry: EngineResult,
    wet: EngineResult,
)
    requires
        structural_reported(preview, None, true, dry),
        structural_reported(preview, applied, false, wet),
    ensures
        dry.matches == wet.matches,
{
}

/// One semantic-patch rule's run.
#[derive(Debug, Clone)]
pub struct CocciRuleReport {
    pub rule: String,
    pub exit_code: Option<i32>,
    pub stdout: String,
    pub stderr: String,
    pub success: bool,
}

/// A semantic-patch run over a rules directory: one report per rule file.
#[derive(Debug, Clone)]
pub struct CocciSummary {
    pub reports: Vec<CocciRuleReport>,
}

/// A rule file of the semantic-patch engine: its name ends in `.cocci`
/// after a non-empty stem.
pub open spec fn is_cocci_rule(name: Seq<char>) -> bool {
    name.len() > 6 && name.subrange(name.len() - 6, name.len() as int) == ".cocci"@ && name[name.len() - 7] != '/'
}

/// Whether `name` is a rule file of the semantic-patch engine.
pub fn cocci_rule(name: &str) -> (r: bool)
    ensures
        r == is_cocci_rule(name@),
{
    let n = name.unicode_len();
    if n <= 6 {
        return false;
    }
    let ext = name.substring_char(n - 6, n);
    let suffix = String::from_str(ext);
    let want = String::from_str(".cocci");
    suffix == want && name.get_char(n - 7) != '/'
}

/// How many of the rules succeeded.
pub open spec fn successes(rs: Seq<CocciRuleReport>) -> nat
    decreases rs.len(),
{
    if rs.len() == 0 {
        0
    } else {
        successes(rs.drop_last()) + if rs.last().success {
            1nat
        } else {
            0nat
        }
    }
}

/// The semantic-patch engine's result: no match count, and how many of its
/// rules succeeded out of how many ran; a failed rule does not stop the rest.
pub fn semantic_result(summary: &CocciSummary) -> (r: EngineResult)
    requires
        summary.reports@.len() <= u32::MAX,
    ensures
        r.matches is None,
        r.status@ == "semantic patches: "@ + crate::text::decimal(successes(summary.reports@)) + " of "@
            + crate::text::decimal(summary.reports@.len()) + " rules succeeded"@,
{
    let mut ok: u32 = 0;
    let mut i: usize = 0;
    while i < summary.reports.len()
        invariant
            i <= summary.reports@.len(),
            summary.reports@.len() <= u32::MAX,
            ok == successes(summary.reports@.subrange(0, i as int)),
            ok <= i,
        decreases summary.reports@.len() - i,
    {
        assert(summary.reports@.subrange(0, i + 1).drop_last() =~= summary.reports@.subrange(0, i as int));
        if summary.reports[i].success {
            ok = ok + 1;
        }
        i = i + 1;
    }
    assert(summary.reports@.subrange(0, i as int) =~= summary.reports@);
    let mut s = String::from_str("semantic patches: ");
    let a = crate::text::decimal_string(ok);
    s.append(a.as_str());
    s.append(" of ");
    let b = crate::text::decimal_string(summary.reports.len() as u32);
    s.append(b.as_str());
    s.append(" rules succeeded");
    EngineResult { matches: None, status: s }
}


/// The result for a patch set whose engine's tool is not installed: skipped,
/// with the tool named, and no match count.
pub fn missing_tool_result(tool: &str) -> (r: EngineResult)
    ensures
        r.matches is None,
        r.status@ == "skipped: "@ + tool@ + " not found"@,
{
    let mut s = String::from_str("skipped: ");
    s.append(tool);
    s.append(" not found");
    EngineResult { matches: None, status: s }
}

} // verus!
