//! Merge policy: which strategy a repository update takes once the remote has
//! been fetched, and what each strategy does to the local branch tip.
//!
//! The policy is stated over a small model: a commit id is a `u64`, the local
//! branch tip and the fetched remote tip are commit ids, and the result of a
//! merge analysis is three booleans. Everything here is independent of the
//! engine that performs the actual repository mutations.

use vstd::prelude::*;

verus! {

/// What a merge analysis reports about the fetched commit relative to the
/// local branch tip.
#[derive(Clone, Copy, Debug, PartialEq, Eq, Structural)]
pub struct MergeAnalysisFlags {
    /// The local tip is an ancestor of the fetched commit: the branch can be
    /// fast-forwarded.
    pub fast_forward: bool,
    /// The histories have diverged: a true merge would be needed.
    pub normal: bool,
    /// The local tip already contains the fetched commit.
    pub up_to_date: bool,
}

/// The strategy chosen for one repository update.
#[derive(Clone, Copy, Debug, PartialEq, Eq, Structural)]
pub enum MergeDecision {
    /// Move the branch tip forward to the fetched commit.
    FastForward,
    /// Merge the diverged histories through their common ancestor.
    ThreeWay,
    /// The history is truncated, so no merge base exists: force-reset the
    /// branch to the fetched commit. Lossy for local-only commits.
    ShallowReset,
    /// Nothing to do: the local tip already contains the fetched commit.
    UpToDate,
    /// No common history, nothing to merge.
    NoMerge,
}

/// The terminal merge outcome recorded in a repository's result.
#[derive(Clone, Copy, Debug, PartialEq, Eq, Structural)]
pub enum MergeOutcome {
    FastForward,
    ThreeWayMerge,
    UpToDate,
    ShallowReset,
    /// The three-way merge hit overlapping edits: the conflicted state was
    /// written to the working tree and no merge commit was created.
    ConflictsPresent,
    NoMerge,
}

/// Which strategy the analysis flags and the shallow-clone bit call for:
/// fast-forward when possible; for diverged histories a three-way merge, or a
/// force-reset when the clone is shallow; otherwise up-to-date or nothing.
pub open spec fn spec_decide(flags: MergeAnalysisFlags, shallow: bool) -> MergeDecision {
    if flags.fast_forward {
        MergeDecision::FastForward
    } else if flags.normal {
        if shallow {
            MergeDecision::ShallowReset
        } else {
            MergeDecision::ThreeWay
        }
    } else if flags.up_to_date {
        MergeDecision::UpToDate
    } else {
        MergeDecision::NoMerge
    }
}

/// Choose the merge strategy for one repository.
pub fn decide_strategy(flags: MergeAnalysisFlags, shallow: bool) -> (d: MergeDecision)
    ensures
        d == spec_decide(flags, shallow),
{
    if flags.fast_forward {
        MergeDecision::FastForward
    } else if flags.normal {
        if shallow {
            MergeDecision::ShallowReset
        } else {
            MergeDecision::ThreeWay
        }
    } else if flags.up_to_date {
        MergeDecision::UpToDate
    } else {
        MergeDecision::NoMerge
    }
}

/// What one update step does to the local branch tip, and the outcome it
/// reports. `tip` is the local branch tip before the step, `fetched` the
/// commit the fetch brought in, and `merged` the id the engine would give a
/// synthesized merge commit. `conflicts` reports whether a three-way merge of
/// the trees hit overlapping edits; it is only consulted for `ThreeWay`.
pub open spec fn spec_apply(
    tip: u64,
    fetched: u64,
    merged: u64,
    d: MergeDecision,
    conflicts: bool,
) -> (u64, MergeOutcome) {
    match d {
        MergeDecision::FastForward => (fetched, MergeOutcome::FastForward),
        MergeDecision::ShallowReset => (fetched, MergeOutcome::ShallowReset),
        MergeDecision::ThreeWay => if conflicts {
            (tip, MergeOutcome::ConflictsPresent)
        } else {
            (merged, MergeOutcome::ThreeWayMerge)
        },
        MergeDecision::UpToDate => (tip, MergeOutcome::UpToDate),
        MergeDecision::NoMerge => (tip, MergeOutcome::NoMerge),
    }
}

/// Which terminal outcomes a strategy can end in: each strategy reports
/// itself, except that a three-way merge reports either the synthesized merge
/// or the conflicted stop.
pub open spec fn outcome_of_decision(o: MergeOutcome, d: MergeDecision) -> bool {
    match d {
        MergeDecision::FastForward => o == MergeOutcome::FastForward,
        MergeDecision::ThreeWay => o == MergeOutcome::ThreeWayMerge || o
            == MergeOutcome::ConflictsPresent,
        MergeDecision::ShallowReset => o == MergeOutcome::ShallowReset,
        MergeDecision::UpToDate => o == MergeOutcome::UpToDate,
        MergeDecision::NoMerge => o == MergeOutcome::NoMerge,
    }
}

/// Fast-forward correctness: when the analysis reports the local tip as a
/// strict ancestor of the fetched commit, the chosen strategy is
/// `FastForward` and the branch tip afterwards is exactly the fetched commit.
pub proof fn lemma_fast_forward_correct(
    flags: MergeAnalysisFlags,
    shallow: bool,
    tip: u64,
    fetched: u64,
    merged: u64,
    conflicts: bool,
)
    requires
        flags.fast_forward,
    ensures
        spec_decide(flags, shallow) == MergeDecision::FastForward,
        spec_apply(tip, fetched, merged, spec_decide(flags, shallow), conflicts).0 == fetched,
        spec_apply(tip, fetched, merged, spec_decide(flags, shallow), conflicts).1
            == MergeOutcome::FastForward,
{
}

/// Conflict containment: a three-way merge that hits overlapping edits never
/// creates a merge commit — the branch tip is left exactly as it was, and the
/// outcome reports the conflicts.
pub proof fn lemma_conflict_containment(tip: u64, fetched: u64, merged: u64)
    ensures
        spec_apply(tip, fetched, merged, MergeDecision::ThreeWay, true).0 == tip,
        spec_apply(tip, fetched, merged, MergeDecision::ThreeWay, true).1
            == MergeOutcome::ConflictsPresent,
        spec_apply(tip, fetched, merged, MergeDecision::ThreeWay, true).1
            != MergeOutcome::ThreeWayMerge,
{
}

/// The caller-visible content of one repository around a synchronization:
/// what is committed at the branch tip and what uncommitted edits the working
/// tree holds (`None` for a clean tree).
#[derive(Clone, Copy, Debug, PartialEq, Eq, Structural)]
pub struct WorkTreeModel {
    pub committed: u64,
    pub uncommitted: Option<u64>,
}

/// What an autostash does: move the uncommitted edits, if any, aside, leaving
/// a clean tree for the merge.
pub open spec fn spec_stash(w: WorkTreeModel) -> (WorkTreeModel, Option<u64>) {
    match w.uncommitted {
        Some(edits) => (
            WorkTreeModel { committed: w.committed, uncommitted: None },
            Some(edits),
        ),
        None => (w, None),
    }
}

/// What popping the autostash does: bring the saved edits back into the tree
/// the merge left behind.
pub open spec fn spec_unstash(w: WorkTreeModel, saved: Option<u64>) -> WorkTreeModel {
    match saved {
        Some(edits) => WorkTreeModel { committed: w.committed, uncommitted: Some(edits) },
        None => w,
    }
}

/// Stash safety: stashing a dirty tree hands the merge a clean tree over the
/// same commits, and popping afterwards brings back exactly the edits that
/// were saved — the net change the caller sees is limited to the merge
/// result, and the uncommitted edits are not lost.
pub proof fn lemma_stash_safety(w: WorkTreeModel, merged: u64)
    requires
        w.uncommitted is Some,
    ensures
        spec_stash(w).0.uncommitted is None,
        spec_stash(w).0.committed == w.committed,
        spec_unstash(WorkTreeModel { committed: merged, uncommitted: None }, spec_stash(w).1)
            == (WorkTreeModel { committed: merged, uncommitted: w.uncommitted }),
{
}

/// Idempotence: a repository already at the remote tip reports `UpToDate` and
/// keeps its branch tip, so running the same step again from the state it
/// leaves behind reports `UpToDate` again.
pub proof fn lemma_sync_idempotent(
    flags: MergeAnalysisFlags,
    shallow: bool,
    tip: u64,
    fetched: u64,
    merged: u64,
)
    requires
        flags.up_to_date,
        !flags.fast_forward,
        !flags.normal,
    ensures
        spec_decide(flags, shallow) == MergeDecision::UpToDate,
        spec_apply(tip, fetched, merged, spec_decide(flags, shallow), false)
            == (tip, MergeOutcome::UpToDate),
        spec_apply(
            spec_apply(tip, fetched, merged, spec_decide(flags, shallow), false).0,
            fetched,
            merged,
            spec_decide(flags, shallow),
            false,
        ) == (tip, MergeOutcome::UpToDate),
{
}

} // verus!
