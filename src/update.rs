//! The update orchestrator's bookkeeping: it walks the registry in order,
//! skips disabled patch sets, records each engine result in the registry and
//! in the run's summary, and settles the build phase.
use vstd::prelude::*;
use crate::engines::{EngineResult, engine_label};
use crate::git::CommandError;
use crate::registry::{PatchRegistry, PatchSet, run_recorded};

verus! {

/// One processed patch set, as the summary reports it.
#[derive(Debug, Clone)]
pub struct PatchReport {
    pub id: String,
    pub engine: String,
    pub status: String,
    pub matches: Option<u32>,
}

/// The report of one update run.
#[derive(Debug, Clone)]
pub struct UpdateSummary {
    pub dry_run: bool,
    pub vendor_head_before: Option<String>,
    pub vendor_head_after: Option<String>,
    pub patch_reports: Vec<PatchReport>,
    pub warnings: Vec<String>,
    pub build_status: Option<String>,
}

/// The status a disabled patch set is reported with.
pub open spec fn skipped_disabled() -> Seq<char> {
    "skipped (disabled)"@
}

/// `rep` reports patch set `p` with `status` and `matches`.
pub open spec fn reports(rep: PatchReport, p: PatchSet, status: Seq<char>, matches: Option<u32>) -> bool {
    &&& rep.id@ == p.id@
    &&& rep.engine@ == engine_label(p.engine)
    &&& rep.status@ == status
    &&& rep.matches == matches
}

impl UpdateSummary {
    /// An empty summary for a run.
    pub fn new(
        dry_run: bool,
        vendor_head_before: Option<String>,
        vendor_head_after: Option<String>,
        warnings: Vec<String>,
    ) -> (r: Self)
        ensures
            r.dry_run == dry_run,
            r.vendor_head_before == vendor_head_before,
            r.vendor_head_after == vendor_head_after,
            r.warnings == warnings,
            r.patch_reports@.len() == 0,
            r.build_status is None,
    {
        UpdateSummary {
            dry_run,
            vendor_head_before,
            vendor_head_after,
            patch_reports: Vec::new(),
            warnings,
            build_status: None,
        }
    }

    /// Appends a report on `patch`.
    pub fn record_patch(&mut self, patch: &PatchSet, matches: Option<u32>, status: &str)
        ensures
            final(self).patch_reports@.len() == old(self).patch_reports@.len() + 1,
            final(self).patch_reports@.drop_last() == old(self).patch_reports@,
            reports(final(self).patch_reports@.last(), *patch, status@, matches),
            *final(self) == (UpdateSummary { patch_reports: final(self).patch_reports, ..*old(self) }),
    {
        let report = PatchReport {
            id: patch.id.clone(),
            engine: patch.engine.label(),
            status: String::from_str(status),
            matches,
        };
        self.patch_reports.push(report);
        assert(self.patch_reports@.drop_last() =~= old(self).patch_reports@);
    }
}

/// What the build phase does: skipped for a dry run or on request, else run.
pub open spec fn build_skip_reason(dry_run: bool, skip_build: bool) -> Option<Seq<char>> {
    if dry_run {
        Some("skipped (dry-run)"@)
    } else if skip_build {
        Some("skipped (--skip-build)"@)
    } else {
        None
    }
}

/// Why the build phase is skipped, if it is.
pub fn build_skip(dry_run: bool, skip_build: bool) -> (r: Option<String>)
    ensures
        match build_skip_reason(dry_run, skip_build) {
            Some(t) => r matches Some(s) && s@ == t,
            None => r is None,
        },
{
    if dry_run {
        Some(String::from_str("skipped (dry-run)"))
    } else if skip_build {
        Some(String::from_str("skipped (--skip-build)"))
    } else {
        None
    }
}

/// The patch phase of one update: the registry being worked through, the
/// commit the tree stands on, the summary so far, and how far it has got.
#[derive(Debug)]
pub struct PatchPhase {
    pub registry: PatchRegistry,
    pub commit: String,
    pub summary: UpdateSummary,
    /// Patch sets before this position are done.
    pub next: usize,
}

/// Patch sets in `ps` from `from` up to `to` are all disabled, and the
/// reports `reps` name each with the skipped status, in order.
pub open spec fn skipped_run(ps: Seq<PatchSet>, from: int, to: int, reps: Seq<PatchReport>) -> bool {
    &&& reps.len() == to - from
    &&& forall|k: int| from <= k < to ==> !(#[trigger] ps[k]).enabled
    &&& forall|k: int| 0 <= k < to - from ==> reports(#[trigger] reps[k], ps[from + k], skipped_disabled(), None)
}

impl PatchPhase {
    /// The patch phase over `registry`, on `commit`, reporting into `summary`.
    pub fn new(registry: PatchRegistry, commit: String, summary: UpdateSummary) -> (r: Self)
        ensures
            r.registry == registry,
            r.commit == commit,
            r.summary == summary,
            r.next == 0,
    {
        PatchPhase { registry, commit, summary, next: 0 }
    }

    pub open spec fn wf(&self) -> bool {
        self.next <= self.registry.patch_sets@.len()
    }

    /// Reports every disabled patch set from the current position on as
    /// skipped, without running any engine, and stops at the next enabled
    /// one, which is handed out for dispatch; `None` once all are done.
    pub fn next_enabled(&mut self) -> (r: Option<usize>)
        requires
            old(self).wf(),
        ensures
            final(self).wf(),
            final(self).registry == old(self).registry,
            final(self).commit == old(self).commit,
            final(self).summary.warnings == old(self).summary.warnings,
            final(self).summary.build_status == old(self).summary.build_status,
            final(self).summary.patch_reports@.subrange(0, old(self).summary.patch_reports@.len() as int)
                == old(self).summary.patch_reports@,
            skipped_run(
                old(self).registry.patch_sets@,
                old(self).next as int,
                final(self).next as int,
                final(self).summary.patch_reports@.subrange(
                    old(self).summary.patch_reports@.len() as int,
                    final(self).summary.patch_reports@.len() as int,
                ),
            ),
            match r {
                Some(i) => i == final(self).next && i < old(self).registry.patch_sets@.len()
                    && old(self).registry.patch_sets@[i as int].enabled,
                None => final(self).next == old(self).registry.patch_sets@.len(),
            },
    {
        let ghost start = self.next as int;
        let ghost base = self.summary.patch_reports@;
        while self.next < self.registry.patch_sets.len() && !self.registry.patch_sets[self.next].enabled
            invariant
                self.wf(),
                self.registry == old(self).registry,
                self.commit == old(self).commit,
                self.summary.warnings == old(self).summary.warnings,
                self.summary.build_status == old(self).summary.build_status,
                start <= self.next,
                base == old(self).summary.patch_reports@,
                start == old(self).next,
                base.len() <= self.summary.patch_reports@.len(),
                self.summary.patch_reports@.len() - base.len() == self.next - start,
                self.summary.patch_reports@.subrange(0, base.len() as int) == base,
                skipped_run(
                    self.registry.patch_sets@,
                    start,
                    self.next as int,
                    self.summary.patch_reports@.subrange(base.len() as int, self.summary.patch_reports@.len() as int),
                ),
            decreases self.registry.patch_sets@.len() - self.next,
        {
            let i = self.next;
            let ghost before = self.summary.patch_reports@;
            self.summary.record_patch(&self.registry.patch_sets[i], None, "skipped (disabled)");
            self.next = i + 1;
            proof {
                let now = self.summary.patch_reports@;
                assert(now.drop_last() == before);
                assert(now.subrange(0, base.len() as int) =~= before.subrange(0, base.len() as int));
                let old_tail = before.subrange(base.len() as int, before.len() as int);
                let tail = now.subrange(base.len() as int, now.len() as int);
                assert(tail =~= old_tail.push(now.last()));
                assert forall|k: int| 0 <= k < self.next - start implies reports(
                    #[trigger] tail[k],
                    self.registry.patch_sets@[start + k],
                    skipped_disabled(),
                    None,
                ) by {
                    if k < old_tail.len() {
                        assert(tail[k] == old_tail[k]);
                    }
                }
            }
        }
        if self.next < self.registry.patch_sets.len() {
            Some(self.next)
        } else {
            None
        }
    }

    /// Records the engine's result for the patch set handed out last: a
    /// report in the summary, and the run in the registry's history.
    pub fn record_result(&mut self, result: &EngineResult)
        requires
            old(self).wf(),
            old(self).next < old(self).registry.patch_sets@.len(),
        ensures
            final(self).wf(),
            final(self).next == old(self).next + 1,
            final(self).commit == old(self).commit,
            final(self).summary.patch_reports@ == old(self).summary.patch_reports@.push(
                final(self).summary.patch_reports@.last(),
            ),
            reports(
                final(self).summary.patch_reports@.last(),
                old(self).registry.patch_sets@[old(self).next as int],
                result.status@,
                result.matches,
            ),
            final(self).summary.warnings == old(self).summary.warnings,
            final(self).summary.build_status == old(self).summary.build_status,
            final(self).registry.patch_sets@.len() == old(self).registry.patch_sets@.len(),
            exists|now: Seq<char>|
                run_recorded(
                    old(self).registry.patch_sets@[old(self).next as int],
                    #[trigger] final(self).registry.patch_sets@[old(self).next as int],
                    old(self).commit@,
                    result.matches,
                    result.status@,
                    now,
                ),
            forall|j: int|
                0 <= j < old(self).registry.patch_sets@.len() && j != old(self).next
                    ==> final(self).registry.patch_sets@[j] == old(self).registry.patch_sets@[j],
    {
        let i = self.next;
        self.summary.record_patch(&self.registry.patch_sets[i], result.matches, result.status.as_str());
        assert(i < self.registry.patch_sets.len());
        self.registry.update_at(i, self.commit.as_str(), result.matches, result.status.as_str());
        self.next = i + 1;
        proof {
            let s = self.summary.patch_reports@;
            assert(s =~= s.drop_last().push(s.last()));
        }
    }

    /// Settles the build phase: skipped for a dry run or on request, else
    /// the build's outcome.
    pub fn record_build(&mut self, skip: Option<String>, outcome: Option<Result<(), CommandError>>)
        ensures
            match skip {
                Some(reason) => final(self).summary.build_status == Some(reason),
                None => match outcome {
                    Some(Ok(())) => final(self).summary.build_status matches Some(b) && b@ == "succeeded"@,
                    Some(Err(e)) => final(self).summary.build_status matches Some(b) && b@ == "failed: "@
                        + e.command@ + " failed: "@ + e.detail@,
                    None => final(self).summary.build_status is None,
                },
            },
            final(self).registry == old(self).registry,
            final(self).next == old(self).next,
            final(self).summary.patch_reports == old(self).summary.patch_reports,
            final(self).summary.warnings == old(self).summary.warnings,
    {
        let status = match skip {
            Some(reason) => Some(reason),
            None => match outcome {
                Some(Ok(())) => Some(String::from_str("succeeded")),
                Some(Err(e)) => {
                    let mut s = String::from_str("failed: ");
                    let m = e.message();
                    s.append(m.as_str());
                    Some(s)
                },
                None => None,
            },
        };
        self.summary.build_status = status;
    }
}

} // verus!
