//! Result and error types shared by the per-repository synchronizer and the
//! batch coordinator.

use vstd::prelude::*;
use crate::config::spec_starts_with;
use crate::merge::MergeOutcome;

verus! {

/// Snapshot of what a completed fetch transferred.
#[derive(Clone, Copy, Debug, PartialEq, Eq, Structural)]
pub struct FetchInfo {
    pub objects_received: usize,
    pub bytes_received: usize,
}

/// The merge classification reported to callers, as it appears in the
/// structured result.
#[derive(Clone, Copy, Debug, PartialEq, Eq, Structural)]
pub enum MergeType {
    FastForward,
    /// A true merge of diverged histories, including the forced reset taken
    /// for shallow clones.
    Normal,
    UpToDate,
    /// No common history, nothing to merge.
    NoMerge,
}

/// The merge classification together with whether the merge hit conflicts.
#[derive(Clone, Copy, Debug, PartialEq, Eq, Structural)]
pub struct MergeInfo {
    pub merge_type: MergeType,
    pub conflicts: bool,
}

/// How a terminal merge outcome is reported: diverged-history outcomes (a
/// synthesized merge commit, a conflicted stop, a shallow reset) all read as
/// `Normal`, and only a conflicted stop sets `conflicts`.
pub open spec fn spec_merge_info(o: MergeOutcome) -> MergeInfo {
    match o {
        MergeOutcome::FastForward => MergeInfo { merge_type: MergeType::FastForward, conflicts: false },
        MergeOutcome::ThreeWayMerge => MergeInfo { merge_type: MergeType::Normal, conflicts: false },
        MergeOutcome::ShallowReset => MergeInfo { merge_type: MergeType::Normal, conflicts: false },
        MergeOutcome::ConflictsPresent => MergeInfo { merge_type: MergeType::Normal, conflicts: true },
        MergeOutcome::UpToDate => MergeInfo { merge_type: MergeType::UpToDate, conflicts: false },
        MergeOutcome::NoMerge => MergeInfo { merge_type: MergeType::NoMerge, conflicts: false },
    }
}

/// Report a merge outcome to callers.
pub fn merge_info_of(o: MergeOutcome) -> (m: MergeInfo)
    ensures
        m == spec_merge_info(o),
{
    match o {
        MergeOutcome::FastForward => MergeInfo { merge_type: MergeType::FastForward, conflicts: false },
        MergeOutcome::ThreeWayMerge => MergeInfo { merge_type: MergeType::Normal, conflicts: false },
        MergeOutcome::ShallowReset => MergeInfo { merge_type: MergeType::Normal, conflicts: false },
        MergeOutcome::ConflictsPresent => MergeInfo { merge_type: MergeType::Normal, conflicts: true },
        MergeOutcome::UpToDate => MergeInfo { merge_type: MergeType::UpToDate, conflicts: false },
        MergeOutcome::NoMerge => MergeInfo { merge_type: MergeType::NoMerge, conflicts: false },
    }
}

impl MergeType {
    /// The label under which this classification appears in serialized
    /// results.
    pub fn label(&self) -> (r: String)
        ensures
            *self == MergeType::FastForward ==> r@ == "FastForward"@,
            *self == MergeType::Normal ==> r@ == "Normal"@,
            *self == MergeType::UpToDate ==> r@ == "UpToDate"@,
            *self == MergeType::NoMerge ==> r@ == "None"@,
    {
        match self {
            MergeType::FastForward => String::from_str("FastForward"),
            MergeType::Normal => String::from_str("Normal"),
            MergeType::UpToDate => String::from_str("UpToDate"),
            MergeType::NoMerge => String::from_str("None"),
        }
    }
}

/// A terminal, per-repository failure. Every variant carries the message of
/// the underlying engine error where there is one.
#[derive(Debug, Clone)]
pub enum SyncError {
    /// The path is not an openable repository.
    RepoOpen(String),
    /// The head is not on a named branch.
    DetachedHead,
    /// The transfer from the remote failed (transport, protocol or
    /// authentication).
    Fetch(String),
    /// The merge step itself failed in the engine.
    Merge(String),
}

/// The shape every terminal failure reason has: one of the four fixed texts,
/// three of them followed by the engine's own description.
pub open spec fn spec_failure_reason(m: Seq<char>) -> bool {
    ||| spec_starts_with(m, "Failed to open repository: "@)
    ||| m == "HEAD has no shorthand (detached)"@
    ||| spec_starts_with(m, "Fetch failed: "@)
    ||| spec_starts_with(m, "Merge failed: "@)
}

/// A sequence starts with anything it was built by prepending.
proof fn lemma_prefix_of_concat(p: Seq<char>, m: Seq<char>)
    ensures
        spec_starts_with(p + m, p),
{
    assert((p + m).subrange(0, p.len() as int) =~= p);
}

impl SyncError {
    /// A human-readable reason, kept in the result for programmatic
    /// consumption.
    pub fn message(&self) -> (r: String)
        ensures
            self matches SyncError::RepoOpen(m) ==> r@ == "Failed to open repository: "@ + m@,
            self is DetachedHead ==> r@ == "HEAD has no shorthand (detached)"@,
            self matches SyncError::Fetch(m) ==> r@ == "Fetch failed: "@ + m@,
            self matches SyncError::Merge(m) ==> r@ == "Merge failed: "@ + m@,
            spec_failure_reason(r@),
    {
        match self {
            SyncError::RepoOpen(m) => {
                proof {
                    lemma_prefix_of_concat("Failed to open repository: "@, m@);
                }
                String::from_str("Failed to open repository: ").concat(m.as_str())
            },
            SyncError::DetachedHead => String::from_str("HEAD has no shorthand (detached)"),
            SyncError::Fetch(m) => {
                proof {
                    lemma_prefix_of_concat("Fetch failed: "@, m@);
                }
                String::from_str("Fetch failed: ").concat(m.as_str())
            },
            SyncError::Merge(m) => {
                proof {
                    lemma_prefix_of_concat("Merge failed: "@, m@);
                }
                String::from_str("Merge failed: ").concat(m.as_str())
            },
        }
    }
}

/// One repository's terminal synchronization record.
#[derive(Debug, Clone)]
pub struct UpdateResult {
    pub repo_path: String,
    pub branch: String,
    pub success: bool,
    pub fetch_info: Option<FetchInfo>,
    pub merge_info: Option<MergeInfo>,
    pub duration_ms: u64,
    pub error: Option<String>,
}

impl UpdateResult {
    /// A result is well formed when it records an error exactly when it
    /// records a failure.
    pub open spec fn well_formed(&self) -> bool {
        self.success <==> self.error is None
    }

    /// The record of a run that reached a terminal merge state.
    pub fn succeeded(
        repo_path: String,
        branch: String,
        fetch_info: FetchInfo,
        merge_info: MergeInfo,
        duration_ms: u64,
    ) -> (r: UpdateResult)
        ensures
            r.well_formed(),
            r.success,
            r.repo_path == repo_path,
            r.branch == branch,
            r.fetch_info == Some(fetch_info),
            r.merge_info == Some(merge_info),
            r.duration_ms == duration_ms,
            r.error is None,
    {
        UpdateResult {
            repo_path,
            branch,
            success: true,
            fetch_info: Some(fetch_info),
            merge_info: Some(merge_info),
            duration_ms,
            error: None,
        }
    }

    /// The record of a run that ended in a terminal error, converted at the
    /// task boundary so that it never aborts sibling repositories.
    pub fn failed(repo_path: String, branch: String, error: String, duration_ms: u64) -> (r:
        UpdateResult)
        ensures
            r.well_formed(),
            !r.success,
            r.repo_path == repo_path,
            r.branch == branch,
            r.fetch_info is None,
            r.merge_info is None,
            r.duration_ms == duration_ms,
            r.error == Some(error),
    {
        UpdateResult {
            repo_path,
            branch,
            success: false,
            fetch_info: None,
            merge_info: None,
            duration_ms,
            error: Some(error),
        }
    }
}

} // verus!
