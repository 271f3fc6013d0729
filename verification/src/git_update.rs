//! The per-repository synchronizer: branch check, dirty-tree protection with
//! autostash, authenticated fetch, merge analysis, strategy dispatch and
//! cleanup, producing one terminal record per repository.

use vstd::prelude::*;
use crate::credentials_manager::CredentialManager;
use crate::gitops::analyze_merge;
use crate::gitops::checkout_conflicted_index;
use crate::gitops::checkout_head_force;
use crate::gitops::commit_id_hex;
use crate::gitops::commit_merged_index;
use crate::gitops::fast_forward_to;
use crate::gitops::fetch_origin;
use crate::gitops::fetched_commit;
use crate::gitops::find_stash_index;
use crate::gitops::git_error_message;
use crate::gitops::head_branch_name;
use crate::gitops::head_commit;
use crate::gitops::index_has_conflicts;
use crate::gitops::merge_trees_of;
use crate::gitops::open_repository;
use crate::gitops::repo_head_detached;
use crate::gitops::repo_is_shallow;
use crate::gitops::worktree_status_flags;
use crate::gitops::reset_branch_to;
use crate::gitops::stash_pop_at;
use crate::gitops::stash_save_all;
use crate::merge::decide_strategy;
use crate::merge::outcome_of_decision;
use crate::merge::spec_decide;
use crate::merge::MergeAnalysisFlags;
use crate::merge::MergeDecision;
use crate::merge::MergeOutcome;
use crate::progress::board_report;
use crate::progress::RepoStatus;
use crate::progress::SharedBoard;
use crate::results::merge_info_of;
use crate::results::spec_failure_reason;
use crate::results::FetchInfo;
use crate::results::SyncError;
use crate::results::UpdateResult;

verus! {

/// Relies on std::time::SystemTime::now: milliseconds since the Unix epoch,
/// 0 when the clock reads earlier than the epoch, saturated at the largest
/// representable value.
#[verifier::external_body]
fn now_unix_millis() -> u64 {
    std::time::SystemTime::now().duration_since(std::time::UNIX_EPOCH).map(
        |d| u64::try_from(d.as_millis()).unwrap_or(u64::MAX),
    ).unwrap_or(0)
}

/// The full reference name of a local branch.
pub fn refname_for_branch(branch: &str) -> (r: String)
    ensures
        r@ == "refs/heads/"@ + branch@,
{
    String::from_str("refs/heads/").concat(branch)
}

/// The message recorded on a synthesized merge commit.
pub fn merge_message(remote_id: &str, local_id: &str) -> (r: String)
    ensures
        r@ == "Merge: "@ + remote_id@ + " into "@ + local_id@,
{
    let mut s = String::from_str("Merge: ");
    s.append(remote_id);
    s.append(" into ");
    s.append(local_id);
    proof {
        assert(s@ =~= "Merge: "@ + remote_id@ + " into "@ + local_id@);
    }
    s
}

/// The flags of one status entry, as plain booleans: what the entry is in
/// the working tree and in the staged index.
#[derive(Clone, Copy, Debug, PartialEq, Eq, Structural)]
pub struct StatusFlags {
    pub wt_modified: bool,
    pub wt_new: bool,
    pub wt_deleted: bool,
    pub wt_renamed: bool,
    pub wt_typechange: bool,
    pub index_modified: bool,
    pub index_new: bool,
    pub index_deleted: bool,
    pub index_renamed: bool,
    pub index_typechange: bool,
}

/// The dirty-tree rule: an entry counts when it is modified, new, deleted,
/// renamed or type-changed, in the working tree or in the staged index.
pub open spec fn spec_entry_dirty(s: StatusFlags) -> bool {
    ||| s.wt_modified
    ||| s.wt_new
    ||| s.wt_deleted
    ||| s.wt_renamed
    ||| s.wt_typechange
    ||| s.index_modified
    ||| s.index_new
    ||| s.index_deleted
    ||| s.index_renamed
    ||| s.index_typechange
}

/// Whether one status entry makes the tree dirty.
pub fn entry_is_dirty(s: &StatusFlags) -> (r: bool)
    ensures
        r == spec_entry_dirty(*s),
{
    s.wt_modified || s.wt_new || s.wt_deleted || s.wt_renamed || s.wt_typechange
        || s.index_modified || s.index_new || s.index_deleted || s.index_renamed
        || s.index_typechange
}

/// Whether any status entry makes the tree dirty.
pub open spec fn spec_any_dirty(s: Seq<StatusFlags>) -> bool {
    exists|i: int| 0 <= i < s.len() && spec_entry_dirty(s[i])
}

/// Whether the tree the entries describe is dirty.
pub fn any_entry_dirty(entries: &Vec<StatusFlags>) -> (r: bool)
    ensures
        r == spec_any_dirty(entries@),
{
    let n = entries.len();
    let mut i: usize = 0;
    while i < n
        invariant
            i <= n,
            n == entries@.len(),
            forall|j: int| 0 <= j < i ==> !spec_entry_dirty(entries@[j]),
        decreases n - i,
    {
        if entry_is_dirty(&entries[i]) {
            return true;
        }
        i = i + 1;
    }
    false
}

/// Everything one successful pass over a repository established: the branch
/// it was on, what the fetch transferred, what the merge analysis saw, and
/// the terminal outcome the dispatch reached from it.
pub struct SyncReport {
    pub branch: String,
    pub fetch_info: FetchInfo,
    pub flags: MergeAnalysisFlags,
    pub shallow: bool,
    pub outcome: MergeOutcome,
    /// Whether the working tree was dirty before the fetch.
    pub was_dirty: bool,
    /// Whether an autostash was attempted; attempted exactly when dirty.
    pub stash_attempted: bool,
    /// Whether an autostash was created. Stash failure is non-fatal: the run
    /// proceeds with the original changes in place.
    pub stash_created: bool,
}

/// Synchronizes one repository against its `origin` remote.
pub struct RepoUpdater {
    repo_path: String,
    repo: git2::Repository,
    credentials: CredentialManager,
}

impl RepoUpdater {
    /// The path of the repository being synchronized.
    pub closed spec fn spec_path(&self) -> Seq<char> {
        self.repo_path@
    }

    /// Open the repository at `repo_path`. Fails with the open-failure error
    /// exactly when the engine cannot open it.
    pub fn new(repo_path: String, credentials: CredentialManager) -> (r: Result<
        RepoUpdater,
        SyncError,
    >)
        ensures
            r matches Ok(u) ==> u.spec_path() == repo_path@,
            r matches Err(e) ==> e is RepoOpen,
    {
        match open_repository(repo_path.as_str()) {
            Ok(repo) => Ok(RepoUpdater { repo_path, repo, credentials }),
            Err(e) => Err(SyncError::RepoOpen(git_error_message(&e))),
        }
    }

    /// The short name of the branch the head is on. Fails with the
    /// detached-head error when the head is not on a named branch, and with
    /// the open-failure error when the head cannot be read at all.
    pub fn get_current_branch(&self) -> (r: Result<String, SyncError>)
        ensures
            r matches Err(e) ==> (e is DetachedHead || e is RepoOpen),
    {
        match repo_head_detached(&self.repo) {
            Ok(true) => Err(SyncError::DetachedHead),
            Ok(false) => match head_branch_name(&self.repo) {
                Ok(name) => Ok(name),
                Err(e) => Err(SyncError::RepoOpen(git_error_message(&e))),
            },
            Err(e) => Err(SyncError::RepoOpen(git_error_message(&e))),
        }
    }

    /// Fetch the branch from `origin`, negotiating credentials. Every failure
    /// is the fetch error, terminal for this repository only.
    pub fn fetch(&self, branch: &str) -> (r: Result<FetchInfo, SyncError>)
        ensures
            r matches Err(e) ==> e is Fetch,
    {
        match fetch_origin(&self.repo, branch, &self.credentials) {
            Ok(info) => Ok(info),
            Err(e) => Err(SyncError::Fetch(git_error_message(&e))),
        }
    }

    /// Merge the diverged histories through their common ancestor. `Ok(true)`
    /// means the merge hit conflicts: the conflicted state was written to the
    /// working tree and index and nothing was committed. `Ok(false)` means a
    /// two-parent merge commit was synthesized and checked out.
    fn normal_merge(&self, remote: &git2::AnnotatedCommit<'_>) -> (r: Result<bool, SyncError>)
        ensures
            r matches Err(e) ==> e is Merge,
    {
        let local = match head_commit(&self.repo) {
            Ok(c) => c,
            Err(e) => {
                return Err(SyncError::Merge(git_error_message(&e)));
            },
        };
        let mut index = match merge_trees_of(&self.repo, &local, remote) {
            Ok(i) => i,
            Err(e) => {
                return Err(SyncError::Merge(git_error_message(&e)));
            },
        };
        if index_has_conflicts(&index) {
            match checkout_conflicted_index(&self.repo, &mut index) {
                Ok(()) => Ok(true),
                Err(e) => Err(SyncError::Merge(git_error_message(&e))),
            }
        } else {
            let remote_id = commit_id_hex(remote);
            let local_id = commit_id_hex(&local);
            let message = merge_message(remote_id.as_str(), local_id.as_str());
            match commit_merged_index(&self.repo, &mut index, &local, remote, message.as_str()) {
                Ok(()) => Ok(false),
                Err(e) => Err(SyncError::Merge(git_error_message(&e))),
            }
        }
    }

    /// Dispatch the strategy the analysis calls for, and report the terminal
    /// outcome that strategy reached: exactly the decided one, except that a
    /// three-way merge reports either the synthesized merge or the conflicted
    /// stop.
    pub fn do_merge(
        &self,
        branch: &str,
        flags: MergeAnalysisFlags,
        shallow: bool,
        fetch_commit: &git2::AnnotatedCommit<'_>,
    ) -> (r: Result<MergeOutcome, SyncError>)
        ensures
            r matches Ok(o) ==> outcome_of_decision(o, spec_decide(flags, shallow)),
            r matches Err(e) ==> e is Merge,
            spec_decide(flags, shallow) == MergeDecision::UpToDate ==> r == Ok::<
                MergeOutcome,
                SyncError,
            >(MergeOutcome::UpToDate),
            spec_decide(flags, shallow) == MergeDecision::NoMerge ==> r == Ok::<
                MergeOutcome,
                SyncError,
            >(MergeOutcome::NoMerge),
    {
        let decision = decide_strategy(flags, shallow);
        match decision {
            MergeDecision::FastForward => {
                let refname = refname_for_branch(branch);
                match fast_forward_to(&self.repo, refname.as_str(), fetch_commit, "Fast-Forward") {
                    Ok(()) => Ok(MergeOutcome::FastForward),
                    Err(e) => Err(SyncError::Merge(git_error_message(&e))),
                }
            },
            MergeDecision::ShallowReset => {
                let refname = refname_for_branch(branch);
                match reset_branch_to(
                    &self.repo,
                    refname.as_str(),
                    fetch_commit,
                    "Shallow update: reset to fetched commit",
                ) {
                    Ok(()) => Ok(MergeOutcome::ShallowReset),
                    Err(e) => Err(SyncError::Merge(git_error_message(&e))),
                }
            },
            MergeDecision::ThreeWay => match self.normal_merge(fetch_commit) {
                Ok(true) => Ok(MergeOutcome::ConflictsPresent),
                Ok(false) => Ok(MergeOutcome::ThreeWayMerge),
                Err(e) => Err(e),
            },
            MergeDecision::UpToDate => Ok(MergeOutcome::UpToDate),
            MergeDecision::NoMerge => Ok(MergeOutcome::NoMerge),
        }
    }

    /// Whether the working tree is dirty — the rule that triggers an
    /// autostash. Fails with the open-failure error when the repository's
    /// status cannot be read at all.
    pub fn is_stash_needed(&self) -> (r: Result<bool, SyncError>)
        ensures
            r matches Err(e) ==> e is RepoOpen,
    {
        match worktree_status_flags(&self.repo) {
            Ok(entries) => Ok(any_entry_dirty(&entries)),
            Err(e) => Err(SyncError::RepoOpen(git_error_message(&e))),
        }
    }

    /// Reapply the autostash recorded under `stash_id` and drop it. A stash
    /// that cannot be found or popped is left in the stash list: non-fatal,
    /// the user's changes stay recoverable. Returns whether it was popped.
    fn stash_pop(&mut self, stash_id: &git2::Oid) -> (r: bool)
        ensures
            final(self).spec_path() == old(self).spec_path(),
    {
        match find_stash_index(&mut self.repo, stash_id) {
            Some(index) => stash_pop_at(&mut self.repo, index).is_ok(),
            None => false,
        }
    }

    /// One full pass of the state machine: branch check, dirty check with
    /// autostash, fetch, merge analysis, strategy dispatch, then cleanup
    /// (force-checkout and stash pop) whatever the merge step did.
    ///
    /// On success the report's outcome is one the analysis allows, and an
    /// autostash was attempted exactly when the tree was dirty. Every error
    /// is terminal for this repository only.
    pub fn run(&mut self, board: Option<&SharedBoard>, name: &str) -> (r: Result<
        SyncReport,
        SyncError,
    >)
        ensures
            final(self).spec_path() == old(self).spec_path(),
            r matches Ok(rep) ==> {
                &&& outcome_of_decision(rep.outcome, spec_decide(rep.flags, rep.shallow))
                &&& rep.stash_attempted == rep.was_dirty
                &&& rep.stash_created ==> rep.stash_attempted
            },
    {
        let branch = self.get_current_branch()?;
        let was_dirty = self.is_stash_needed()?;
        let mut stash_created = false;
        let mut stash_id: Option<git2::Oid> = None;
        if was_dirty {
            match stash_save_all(&mut self.repo, "autostash by git-update") {
                Some(oid) => {
                    stash_created = true;
                    stash_id = Some(oid);
                },
                None => {},
            }
        }
        let fetch_info = self.fetch(branch.as_str())?;
        let (flags, shallow, merge_result) = {
            let fetch_commit = match fetched_commit(&self.repo) {
                Ok(c) => c,
                Err(e) => {
                    return Err(SyncError::Fetch(git_error_message(&e)));
                },
            };
            match board {
                Some(b) => board_report(b, name, RepoStatus::Merging),
                None => {},
            }
            let flags = match analyze_merge(&self.repo, &fetch_commit) {
                Ok(f) => f,
                Err(e) => {
                    return Err(SyncError::Merge(git_error_message(&e)));
                },
            };
            let shallow = repo_is_shallow(&self.repo);
            let merge_result = self.do_merge(branch.as_str(), flags, shallow, &fetch_commit);
            (flags, shallow, merge_result)
        };
        // Defensive consistency: the working tree matches the recorded head
        // after any merge attempt — except a conflicted stop, whose working
        // tree deliberately shows the conflicting paths.
        let conflicted = match &merge_result {
            Ok(o) => *o == MergeOutcome::ConflictsPresent,
            Err(_) => false,
        };
        if !conflicted {
            let _ = checkout_head_force(&self.repo);
        }
        match &stash_id {
            Some(oid) => {
                let _ = self.stash_pop(oid);
            },
            None => {},
        }
        match merge_result {
            Ok(outcome) => Ok(
                SyncReport {
                    branch,
                    fetch_info,
                    flags,
                    shallow,
                    outcome,
                    was_dirty,
                    stash_attempted: was_dirty,
                    stash_created,
                },
            ),
            Err(e) => Err(e),
        }
    }

    /// One repository's synchronization, as a terminal record: a successful
    /// pass yields a success record carrying its merge classification and
    /// fetch snapshot; a terminal error yields a failure record carrying the
    /// reason, and never propagates.
    pub fn update(&mut self, board: Option<&SharedBoard>, name: &str) -> (r: UpdateResult)
        ensures
            r.well_formed(),
            r.repo_path@ == old(self).spec_path(),
            r.success ==> r.fetch_info is Some && r.merge_info is Some,
            !r.success ==> r.fetch_info is None && r.merge_info is None,
            !r.success ==> (r.error matches Some(m) && spec_failure_reason(m@)),
    {
        let start = now_unix_millis();
        let outcome = self.run(board, name);
        let end = now_unix_millis();
        let duration_ms = if end >= start {
            end - start
        } else {
            0
        };
        match outcome {
            Ok(report) => UpdateResult::succeeded(
                self.repo_path.clone(),
                report.branch,
                report.fetch_info,
                merge_info_of(report.outcome),
                duration_ms,
            ),
            Err(e) => UpdateResult::failed(
                self.repo_path.clone(),
                String::from_str("unknown"),
                e.message(),
                duration_ms,
            ),
        }
    }
}

} // verus!
