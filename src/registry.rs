//! The patch registry: an ordered list of patch sets with their run history,
//! and the rule that derives a patch set's status after each run.
use vstd::prelude::*;
use crate::text::{decimal, decimal_string, contains, occurs_at};

verus! {

/// The transformation engine a patch set is applied with.
#[derive(Debug, Clone, Copy, PartialEq, Eq, Structural)]
pub enum EngineKind {
    /// Rule files are unified diffs, applied with the version-control tool.
    Patch,
    /// Rules are structural pattern configurations for an AST rewriting tool.
    AstGrep,
    /// Rules are semantic patches for a semantic-diff tool.
    Coccinelle,
}

/// A named, persisted unit of transformation and its run history.
#[derive(Debug, Clone)]
pub struct PatchSet {
    pub id: String,
    pub description: String,
    pub engine: EngineKind,
    pub enabled: bool,
    pub rules: Vec<String>,
    pub tags: Vec<String>,
    /// The engine's confidence, kept as the bit pattern of an IEEE single so
    /// that it round-trips exactly.
    pub engine_confidence_bits: Option<u32>,
    pub last_applied_commit: Option<String>,
    pub last_match_count: Option<u32>,
    pub last_status: Option<String>,
    pub last_run_ts: Option<String>,
}

/// The ordered collection of patch sets, with a format version and a
/// provenance label.
#[derive(Debug, Clone)]
pub struct PatchRegistry {
    pub version: u32,
    pub generated_by: String,
    pub patch_sets: Vec<PatchSet>,
}

/// The outcome of one run of a patch set, as the run history records it.
#[derive(Debug, Clone)]
pub enum PatchResult {
    Applied { changed_files: u64 },
    Skipped { reason: Option<String> },
    Failed { error: String },
}

/// What a new patch set is declared with.
#[derive(Debug, Clone)]
pub struct PatchSetTemplate {
    pub id: String,
    pub description: String,
    pub rules: Vec<String>,
    pub tags: Vec<String>,
}

/// Why a registry operation could not be done.
#[derive(Debug, Clone, PartialEq, Eq)]
pub enum RegistryError {
    /// No patch set has the id.
    NotFound { id: String },
}

/// The format version a fresh registry is written with.
pub const REGISTRY_VERSION: u32 = 1;

/// `i` is the first position in `ps` whose id is `id`.
pub open spec fn first_with_id(ps: Seq<PatchSet>, id: Seq<char>, i: int) -> bool {
    &&& 0 <= i < ps.len()
    &&& ps[i].id@ == id
    &&& forall|j: int| 0 <= j < i ==> (#[trigger] ps[j]).id@ != id
}

/// Some patch set in `ps` has id `id`.
pub open spec fn has_id(ps: Seq<PatchSet>, id: Seq<char>) -> bool {
    exists|j: int| 0 <= j < ps.len() && (#[trigger] ps[j]).id@ == id
}

/// No two patch sets in `ps` share an id.
pub open spec fn ids_unique(ps: Seq<PatchSet>) -> bool {
    forall|i: int, j: int| 0 <= i < j < ps.len() ==> (#[trigger] ps[i]).id@ != (#[trigger] ps[j]).id@
}

/// The status recorded after a run, from the previous match count, the new
/// one and the engine's own outcome text.
pub open spec fn derived_status(previous: Option<u32>, count: Option<u32>, outcome: Seq<char>) -> Seq<char> {
    match count {
        None => outcome,
        Some(n) => if n == 0 {
            match previous {
                Some(p) => if p > 0 {
                    "degraded: 0 matches (previously "@ + decimal(p as nat) + ")"@
                } else {
                    "no-matches"@
                },
                None => "no-matches"@,
            }
        } else {
            "applied: "@ + decimal(n as nat) + " matches"@
        },
    }
}

/// Derives the status to record after a run.
pub fn derive_status(previous: Option<u32>, count: Option<u32>, outcome: &str) -> (r: String)
    ensures
        r@ == derived_status(previous, count, outcome@),
{
    match count {
        None => String::from_str(outcome),
        Some(n) => {
            if n == 0 {
                match previous {
                    Some(p) => {
                        if p > 0 {
                            let mut s = String::from_str("degraded: 0 matches (previously ");
                            let d = decimal_string(p);
                            s.append(d.as_str());
                            s.append(")");
                            s
                        } else {
                            String::from_str("no-matches")
                        }
                    },
                    None => String::from_str("no-matches"),
                }
            } else {
                let mut s = String::from_str("applied: ");
                let d = decimal_string(n);
                s.append(d.as_str());
                s.append(" matches");
                s
            }
        },
    }
}

/// A count that used to match and now matches nothing is reported as a
/// regression: the status names "degraded" and the previous count.
pub proof fn lemma_degraded_status_names_previous(previous: u32, outcome: Seq<char>)
    requires
        previous > 0,
    ensures
        contains(derived_status(Some(previous), Some(0), outcome), "degraded"@),
        contains(derived_status(Some(previous), Some(0), outcome), decimal(previous as nat)),
{
    reveal_strlit("degraded: 0 matches (previously ");
    reveal_strlit("degraded");
    let head = "degraded: 0 matches (previously "@;
    let d = decimal(previous as nat);
    let s = derived_status(Some(previous), Some(0), outcome);
    assert(s == head + d + ")"@);
    assert(s.subrange(0, 8) =~= "degraded"@);
    assert(occurs_at(s, "degraded"@, 0));
    assert(s.subrange(head.len() as int, (head.len() + d.len()) as int) =~= d);
    assert(occurs_at(s, d, head.len() as int));
}

impl PatchRegistry {
    /// An empty registry, as a fresh workspace starts with.
    pub fn empty() -> (r: Self)
        ensures
            r.version == REGISTRY_VERSION,
            r.generated_by@ == "codex-forksmith 0.5.0"@,
            r.patch_sets@.len() == 0,
    {
        PatchRegistry {
            version: REGISTRY_VERSION,
            generated_by: String::from_str("codex-forksmith 0.5.0"),
            patch_sets: Vec::new(),
        }
    }

    /// The registry that was stored, or an empty one where none was.
    pub fn load_or_init(stored: Option<PatchRegistry>) -> (r: Self)
        ensures
            match stored {
                Some(s) => r == s,
                None => r.version == REGISTRY_VERSION && r.generated_by@
                    == "codex-forksmith 0.5.0"@ && r.patch_sets@.len() == 0,
            },
    {
        match stored {
            Some(s) => s,
            None => Self::empty(),
        }
    }

    /// The patch sets, in stored order.
    pub fn list(&self) -> (r: &[PatchSet])
        ensures
            r@ == self.patch_sets@,
    {
        self.patch_sets.as_slice()
    }

    /// The position of the first patch set with id `id`.
    pub fn position(&self, id: &str) -> (r: Option<usize>)
        ensures
            match r {
                Some(i) => first_with_id(self.patch_sets@, id@, i as int),
                None => !has_id(self.patch_sets@, id@),
            },
    {
        let key = String::from_str(id);
        let mut i: usize = 0;
        while i < self.patch_sets.len()
            invariant
                key@ == id@,
                i <= self.patch_sets@.len(),
                forall|j: int| 0 <= j < i ==> (#[trigger] self.patch_sets@[j]).id@ != id@,
            decreases self.patch_sets@.len() - i,
        {
            if self.patch_sets[i].id == key {
                return Some(i);
            }
            i = i + 1;
        }
        None
    }

    /// The first patch set with id `id`.
    pub fn get(&self, id: &str) -> (r: Option<&PatchSet>)
        ensures
            match r {
                Some(p) => exists|i: int| first_with_id(self.patch_sets@, id@, i) && *p
                    == self.patch_sets@[i],
                None => !has_id(self.patch_sets@, id@),
            },
    {
        match self.position(id) {
            Some(i) => Some(&self.patch_sets[i]),
            None => None,
        }
    }
}


/// `q` is `p` after a run recorded with `commit`, `count`, the engine's
/// `outcome` text and the time `now`: the history fields are replaced and the
/// status is derived from the previous count; the declaration is kept.
pub open spec fn run_recorded(
    p: PatchSet,
    q: PatchSet,
    commit: Seq<char>,
    count: Option<u32>,
    outcome: Seq<char>,
    now: Seq<char>,
) -> bool {
    &&& declaration_kept(p, q)
    &&& q.last_applied_commit matches Some(c) && c@ == commit
    &&& q.last_match_count == count
    &&& q.last_status matches Some(st) && st@ == derived_status(p.last_match_count, count, outcome)
    &&& q.last_run_ts matches Some(t) && t@ == now
}

/// `q` declares what `p` declares: id, description, engine, enabled flag,
/// rules, tags and confidence.
pub open spec fn declaration_kept(p: PatchSet, q: PatchSet) -> bool {
    &&& q.id == p.id
    &&& q.description == p.description
    &&& q.engine == p.engine
    &&& q.enabled == p.enabled
    &&& q.rules == p.rules
    &&& q.tags == p.tags
    &&& q.engine_confidence_bits == p.engine_confidence_bits
}

/// Relies on time::OffsetDateTime::now_utc and the Rfc3339 well-known format:
/// the current UTC time as RFC 3339 text, or nothing where formatting fails.
#[verifier::external_body]
fn now_rfc3339() -> (r: Option<String>) {
    time::OffsetDateTime::now_utc().format(&time::format_description::well_known::Rfc3339).ok()
}

impl PatchSet {
    /// Records a run on this patch set.
    pub fn record(&mut self, commit: &str, count: Option<u32>, outcome: &str, now: &str)
        ensures
            run_recorded(*old(self), *final(self), commit@, count, outcome@, now@),
    {
        let status = derive_status(self.last_match_count, count, outcome);
        self.last_applied_commit = Some(String::from_str(commit));
        self.last_match_count = count;
        self.last_run_ts = Some(String::from_str(now));
        self.last_status = Some(status);
    }
}

impl PatchRegistry {
    /// Records a run of the patch set at position `i`, stamped with `now`.
    pub fn record_at(&mut self, i: usize, commit: &str, count: Option<u32>, outcome: &str, now: &str)
        requires
            i < old(self).patch_sets@.len(),
        ensures
            final(self).version == old(self).version,
            final(self).generated_by == old(self).generated_by,
            final(self).patch_sets@.len() == old(self).patch_sets@.len(),
            run_recorded(old(self).patch_sets@[i as int], final(self).patch_sets@[i as int], commit@, count, outcome@, now@),
            forall|j: int|
                0 <= j < old(self).patch_sets@.len() && j != i
                    ==> final(self).patch_sets@[j] == old(self).patch_sets@[j],
    {
        let mut p = self.patch_sets.remove(i);
        p.record(commit, count, outcome, now);
        self.patch_sets.insert(i, p);
    }

    /// Records a run of the patch set at position `i`, stamped with the
    /// current time (`"unknown"` where it cannot be rendered).
    pub fn update_at(&mut self, i: usize, commit: &str, count: Option<u32>, outcome: &str)
        requires
            i < old(self).patch_sets@.len(),
        ensures
            final(self).version == old(self).version,
            final(self).generated_by == old(self).generated_by,
            final(self).patch_sets@.len() == old(self).patch_sets@.len(),
            exists|now: Seq<char>|
                run_recorded(
                    old(self).patch_sets@[i as int],
                    #[trigger] final(self).patch_sets@[i as int],
                    commit@,
                    count,
                    outcome@,
                    now,
                ),
            forall|j: int|
                0 <= j < old(self).patch_sets@.len() && j != i
                    ==> final(self).patch_sets@[j] == old(self).patch_sets@[j],
    {
        let now = match now_rfc3339() {
            Some(t) => t,
            None => String::from_str("unknown"),
        };
        self.record_at(i, commit, count, outcome, now.as_str());
    }

    /// Records a run of the patch set `id`, stamped with the time `now`.
    /// Nothing changes where no patch set has that id.
    pub fn update_after_run_at(
        &mut self,
        id: &str,
        commit: &str,
        count: Option<u32>,
        outcome: &str,
        now: &str,
    )
        ensures
            final(self).version == old(self).version,
            final(self).generated_by == old(self).generated_by,
            final(self).patch_sets@.len() == old(self).patch_sets@.len(),
            !has_id(old(self).patch_sets@, id@) ==> final(self).patch_sets@ == old(self).patch_sets@,
            forall|i: int|
                #[trigger] first_with_id(old(self).patch_sets@, id@, i) ==> {
                    &&& run_recorded(
                        old(self).patch_sets@[i],
                        final(self).patch_sets@[i],
                        commit@,
                        count,
                        outcome@,
                        now@,
                    )
                    &&& forall|j: int|
                        0 <= j < old(self).patch_sets@.len() && j != i
                            ==> final(self).patch_sets@[j] == old(self).patch_sets@[j]
                },
    {
        match self.position(id) {
            Some(i) => {
                self.record_at(i, commit, count, outcome, now);
                proof {
                    assert forall|k: int| first_with_id(old(self).patch_sets@, id@, k) implies k
                        == i by {
                        if k < i {
                            assert(old(self).patch_sets@[k].id@ != id@);
                        } else if k > i {
                            assert(old(self).patch_sets@[i as int].id@ != id@);
                        }
                    }
                }
            },
            None => {},
        }
    }

    /// Records a run of the patch set `id`, stamped with the current time
    /// (`"unknown"` where the time cannot be rendered). The stamp is whatever
    /// the clock gave; all else is as `update_after_run_at` states.
    pub fn update_after_run(&mut self, id: &str, commit: &str, count: Option<u32>, outcome: &str)
        ensures
            final(self).version == old(self).version,
            final(self).generated_by == old(self).generated_by,
            final(self).patch_sets@.len() == old(self).patch_sets@.len(),
            !has_id(old(self).patch_sets@, id@) ==> final(self).patch_sets@ == old(self).patch_sets@,
            forall|i: int|
                #[trigger] first_with_id(old(self).patch_sets@, id@, i) ==> {
                    &&& exists|now: Seq<char>|
                        run_recorded(
                            old(self).patch_sets@[i],
                            #[trigger] final(self).patch_sets@[i],
                            commit@,
                            count,
                            outcome@,
                            now,
                        )
                    &&& forall|j: int|
                        0 <= j < old(self).patch_sets@.len() && j != i
                            ==> final(self).patch_sets@[j] == old(self).patch_sets@[j]
                },
    {
        let now = match now_rfc3339() {
            Some(t) => t,
            None => String::from_str("unknown"),
        };
        self.update_after_run_at(id, commit, count, outcome, now.as_str());
    }

    /// Sets whether the patch set `id` is applied on later runs.
    pub fn toggle(&mut self, id: &str, enabled: bool) -> (r: Result<(), RegistryError>)
        ensures
            final(self).version == old(self).version,
            final(self).generated_by == old(self).generated_by,
            final(self).patch_sets@.len() == old(self).patch_sets@.len(),
            r is Err <==> !has_id(old(self).patch_sets@, id@),
            r matches Err(e) ==> e == (RegistryError::NotFound { id: e->id }) && e->id@ == id@,
            r is Err ==> final(self).patch_sets@ == old(self).patch_sets@,
            forall|i: int|
                #[trigger] first_with_id(old(self).patch_sets@, id@, i) ==> {
                    let (p, q) = (old(self).patch_sets@[i], final(self).patch_sets@[i]);
                    &&& q.enabled == enabled
                    &&& q == (PatchSet { enabled: q.enabled, ..p })
                    &&& forall|j: int|
                        0 <= j < old(self).patch_sets@.len() && j != i
                            ==> final(self).patch_sets@[j] == old(self).patch_sets@[j]
                },
    {
        match self.position(id) {
            Some(i) => {
                let mut p = self.patch_sets.remove(i);
                p.enabled = enabled;
                self.patch_sets.insert(i, p);
                proof {
                    assert forall|k: int| first_with_id(old(self).patch_sets@, id@, k) implies k
                        == i by {
                        if k < i {
                            assert(old(self).patch_sets@[k].id@ != id@);
                        } else if k > i {
                            assert(old(self).patch_sets@[i as int].id@ != id@);
                        }
                    }
                }
                Ok(())
            },
            None => Err(RegistryError::NotFound { id: String::from_str(id) }),
        }
    }
}

impl PatchSetTemplate {
    /// A new, enabled patch set with this declaration and no run history.
    pub fn into_patch_set(self) -> (r: PatchSet)
        ensures
            r.id == self.id,
            r.description == self.description,
            r.rules == self.rules,
            r.tags == self.tags,
            r.engine == EngineKind::Patch,
            r.enabled,
            r.engine_confidence_bits is None,
            r.last_applied_commit is None,
            r.last_match_count is None,
            r.last_status is None,
            r.last_run_ts is None,
    {
        PatchSet {
            id: self.id,
            description: self.description,
            engine: EngineKind::Patch,
            enabled: true,
            rules: self.rules,
            tags: self.tags,
            engine_confidence_bits: None,
            last_applied_commit: None,
            last_match_count: None,
            last_status: None,
            last_run_ts: None,
        }
    }
}

impl RegistryError {
    /// The error as an operator reads it.
    pub fn message(&self) -> (r: String)
        ensures
            match self {
                RegistryError::NotFound { id } => r@ == "patch set "@ + id@ + " not found"@,
            },
    {
        match self {
            RegistryError::NotFound { id } => {
                let mut s = String::from_str("patch set ");
                s.append(id.as_str());
                s.append(" not found");
                s
            },
        }
    }
}

/// `a` sorts before `b`, character by character, as `String`'s order does.
pub open spec fn id_lt(a: Seq<char>, b: Seq<char>) -> bool
    decreases a.len(),
{
    if a.len() == 0 {
        b.len() > 0
    } else if b.len() == 0 {
        false
    } else if a[0] != b[0] {
        (a[0] as u32) < (b[0] as u32)
    } else {
        id_lt(a.drop_first(), b.drop_first())
    }
}

proof fn lemma_id_lt_step(a: Seq<char>, b: Seq<char>, k: int)
    requires
        0 <= k < a.len(),
        k < b.len(),
        a[k] == b[k],
    ensures
        id_lt(a.subrange(k, a.len() as int), b.subrange(k, b.len() as int)) == id_lt(
            a.subrange(k + 1, a.len() as int),
            b.subrange(k + 1, b.len() as int),
        ),
{
    assert(a.subrange(k, a.len() as int).drop_first() =~= a.subrange(k + 1, a.len() as int));
    assert(b.subrange(k, b.len() as int).drop_first() =~= b.subrange(k + 1, b.len() as int));
}

/// Whether `a` sorts before `b`.
pub fn id_less(a: &str, b: &str) -> (r: bool)
    ensures
        r == id_lt(a@, b@),
{
    let av = crate::text::chars_of(a);
    let bv = crate::text::chars_of(b);
    let mut k: usize = 0;
    assert(av@.subrange(0, av@.len() as int) =~= av@);
    assert(bv@.subrange(0, bv@.len() as int) =~= bv@);
    while k < av.len() && k < bv.len() && av[k] == bv[k]
        invariant
            k <= av@.len(),
            k <= bv@.len(),
            av@ == a@,
            bv@ == b@,
            id_lt(a@, b@) == id_lt(av@.subrange(k as int, av@.len() as int), bv@.subrange(k as int, bv@.len() as int)),
        decreases av@.len() - k,
    {
        proof {
            lemma_id_lt_step(av@, bv@, k as int);
        }
        k = k + 1;
    }
    let ghost x = av@.subrange(k as int, av@.len() as int);
    let ghost y = bv@.subrange(k as int, bv@.len() as int);
    if k == av.len() {
        k < bv.len()
    } else if k == bv.len() {
        false
    } else {
        assert(x[0] == av@[k as int] && y[0] == bv@[k as int]);
        (av[k] as u32) < (bv[k] as u32)
    }
}

impl PatchRegistry {
    /// Declares the patch set `templ` unless one with its id is there: a new
    /// one goes before the first patch set whose id sorts after its own, so
    /// that a registry kept in id order stays so. Returns its position.
    pub fn ensure_patch_set(&mut self, templ: PatchSetTemplate) -> (r: usize)
        ensures
            final(self).version == old(self).version,
            final(self).generated_by == old(self).generated_by,
            has_id(old(self).patch_sets@, templ.id@) ==> final(self).patch_sets@ == old(self).patch_sets@
                && first_with_id(old(self).patch_sets@, templ.id@, r as int),
            !has_id(old(self).patch_sets@, templ.id@) ==> {
                let ps = old(self).patch_sets@;
                let q = final(self).patch_sets@[r as int];
                &&& r <= ps.len()
                &&& final(self).patch_sets@ == ps.insert(r as int, q)
                &&& q.id == templ.id && q.description == templ.description && q.rules == templ.rules
                    && q.tags == templ.tags && q.enabled && q.engine == EngineKind::Patch
                &&& q.last_applied_commit is None && q.last_match_count is None && q.last_status is None
                    && q.last_run_ts is None && q.engine_confidence_bits is None
                &&& forall|j: int| 0 <= j < r ==> !id_lt(templ.id@, (#[trigger] ps[j]).id@)
                &&& r < ps.len() ==> id_lt(templ.id@, ps[r as int].id@)
            },
            ids_unique(old(self).patch_sets@) ==> ids_unique(final(self).patch_sets@),
    {
        match self.position(templ.id.as_str()) {
            Some(i) => i,
            None => {
                let mut i: usize = 0;
                while i < self.patch_sets.len() && !id_less(templ.id.as_str(), self.patch_sets[i].id.as_str())
                    invariant
                        i <= self.patch_sets@.len(),
                        self.patch_sets == old(self).patch_sets,
                        forall|j: int| 0 <= j < i ==> !id_lt(templ.id@, (#[trigger] self.patch_sets@[j]).id@),
                    decreases self.patch_sets@.len() - i,
                {
                    i = i + 1;
                }
                let ghost ps = self.patch_sets@;
                let ghost tid = templ.id@;
                let p = templ.into_patch_set();
                self.patch_sets.insert(i, p);
                proof {
                    let fs = self.patch_sets@;
                    assert(fs[i as int].id@ == tid);
                    assert forall|a: int, b: int| ids_unique(ps) && 0 <= a < b < fs.len() implies (#[trigger] fs[a]).id@
                        != (#[trigger] fs[b]).id@ by {
                        if a == i {
                            assert(fs[b] == ps[b - 1]);
                        } else if b == i {
                            assert(fs[a] == ps[a]);
                        } else {
                            let a0 = if a < i { a } else { a - 1 };
                            let b0 = if b < i { b } else { b - 1 };
                            assert(fs[a] == ps[a0]);
                            assert(fs[b] == ps[b0]);
                        }
                    }
                }
                i
            },
        }
    }
}

} // verus!
