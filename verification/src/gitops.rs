//! Trusted boundary to the git engine: type declarations and thin wrappers
//! around the git2 calls the synchronizer makes. What a repository, a fetch or
//! a checkout does to the world is relied on, not proved; each wrapper's
//! comment names the engine functions it calls. The decisions between the
//! calls — strategy choice, error classification, result assembly — live in
//! the verified modules.

use vstd::prelude::*;
use crate::credentials_manager::CredentialManager;
use crate::git_update::StatusFlags;
use crate::merge::MergeAnalysisFlags;
use crate::results::FetchInfo;

verus! {

#[verifier::external_type_specification]
#[verifier::external_body]
pub struct ExRepository(git2::Repository);

#[verifier::external_type_specification]
#[verifier::external_body]
pub struct ExGitError(git2::Error);

#[verifier::external_type_specification]
#[verifier::external_body]
pub struct ExCred(git2::Cred);

#[verifier::external_type_specification]
#[verifier::external_body]
pub struct ExOid(git2::Oid);

#[verifier::external_type_specification]
#[verifier::external_body]
pub struct ExRemoteCallbacks<'a>(git2::RemoteCallbacks<'a>);

#[verifier::external_type_specification]
#[verifier::external_body]
pub struct ExAnnotatedCommit<'a>(git2::AnnotatedCommit<'a>);

#[verifier::external_type_specification]
#[verifier::external_body]
pub struct ExIndex(git2::Index);

/// Relies on git2 Error::message: the engine's description of what failed.
#[verifier::external_body]
pub(crate) fn git_error_message(e: &git2::Error) -> String {
    e.message().to_string()
}

/// Relies on git2 Repository::open: opens an existing repository at the path.
#[verifier::external_body]
pub(crate) fn open_repository(path: &str) -> Result<git2::Repository, git2::Error> {
    git2::Repository::open(std::path::Path::new(path))
}

/// Relies on git2 Repository::head_detached: whether the head points at a
/// commit rather than a named branch.
#[verifier::external_body]
pub(crate) fn repo_head_detached(repo: &git2::Repository) -> Result<bool, git2::Error> {
    repo.head_detached()
}

/// Relies on git2 Repository::head and Reference::shorthand: the short name
/// of the reference the head is on.
#[verifier::external_body]
pub(crate) fn head_branch_name(repo: &git2::Repository) -> Result<String, git2::Error> {
    Ok(repo.head()?.shorthand()?.to_string())
}

/// Relies on git2 Repository::is_shallow: whether the clone's history is
/// truncated.
#[verifier::external_body]
pub(crate) fn repo_is_shallow(repo: &git2::Repository) -> bool {
    repo.is_shallow()
}

/// Relies on git2 Repository::statuses and the Status flag tests: one plain
/// record per status entry, each engine flag copied to one boolean. Which
/// flags make a tree dirty is decided by the verified rule over these
/// records, not here.
#[verifier::external_body]
pub(crate) fn worktree_status_flags(repo: &git2::Repository) -> Result<
    Vec<StatusFlags>,
    git2::Error,
> {
    let statuses = repo.statuses(None)?;
    Ok(statuses.iter().map(|entry| {
        let s = entry.status();
        StatusFlags {
            wt_modified: s.is_wt_modified(), wt_new: s.is_wt_new(),
            wt_deleted: s.is_wt_deleted(), wt_renamed: s.is_wt_renamed(),
            wt_typechange: s.is_wt_typechange(), index_modified: s.is_index_modified(),
            index_new: s.is_index_new(), index_deleted: s.is_index_deleted(),
            index_renamed: s.is_index_renamed(), index_typechange: s.is_index_typechange(),
        }
    }).collect())
}

/// Relies on git2 Repository::find_remote("origin"), Remote::fetch and
/// Remote::stats: fetches the given reference from the remote named `origin`,
/// negotiating credentials through the manager's callbacks, and reports what
/// was transferred.
#[verifier::external_body]
pub(crate) fn fetch_origin(
    repo: &git2::Repository,
    refspec: &str,
    credentials: &CredentialManager,
) -> Result<FetchInfo, git2::Error> {
    let mut remote = repo.find_remote("origin")?;
    let mut options = git2::FetchOptions::new();
    options.remote_callbacks(credentials.create_callbacks(repo));
    remote.fetch(&[refspec], Some(&mut options), None)?;
    let stats = remote.stats();
    Ok(FetchInfo {
        objects_received: stats.received_objects(),
        bytes_received: stats.received_bytes(),
    })
}

/// Relies on git2 Repository::find_reference("FETCH_HEAD") and
/// reference_to_annotated_commit: the commit the last fetch brought in.
#[verifier::external_body]
pub(crate) fn fetched_commit<'r>(repo: &'r git2::Repository) -> Result<
    git2::AnnotatedCommit<'r>,
    git2::Error,
> {
    let fetch_head = repo.find_reference("FETCH_HEAD")?;
    repo.reference_to_annotated_commit(&fetch_head)
}

/// Relies on git2 Repository::head and reference_to_annotated_commit: the
/// commit the head is on.
#[verifier::external_body]
pub(crate) fn head_commit<'r>(repo: &'r git2::Repository) -> Result<
    git2::AnnotatedCommit<'r>,
    git2::Error,
> {
    let head = repo.head()?;
    repo.reference_to_annotated_commit(&head)
}

/// Relies on git2 AnnotatedCommit::id and Oid's hexadecimal rendering.
#[verifier::external_body]
pub(crate) fn commit_id_hex(commit: &git2::AnnotatedCommit<'_>) -> String {
    commit.id().to_string()
}

/// Relies on git2 Repository::merge_analysis: how the fetched commit relates
/// to the head, as three flags.
#[verifier::external_body]
pub(crate) fn analyze_merge(
    repo: &git2::Repository,
    fetch_commit: &git2::AnnotatedCommit<'_>,
) -> Result<MergeAnalysisFlags, git2::Error> {
    let (analysis, _preference) = repo.merge_analysis(&[fetch_commit])?;
    Ok(MergeAnalysisFlags {
        fast_forward: analysis.is_fast_forward(),
        normal: analysis.is_normal(),
        up_to_date: analysis.is_up_to_date(),
    })
}

/// Relies on git2 Reference::set_target, Repository::reference, set_head and
/// checkout_head (force): points the named branch at the fetched commit —
/// creating the branch when it does not exist yet — and makes the working
/// tree match.
#[verifier::external_body]
pub(crate) fn fast_forward_to(
    repo: &git2::Repository,
    refname: &str,
    fetch_commit: &git2::AnnotatedCommit<'_>,
    reflog_msg: &str,
) -> Result<(), git2::Error> {
    match repo.find_reference(refname) {
        Ok(mut reference) => {
            reference.set_target(fetch_commit.id(), reflog_msg)?;
        },
        Err(_) => {
            repo.reference(refname, fetch_commit.id(), true, reflog_msg)?;
        },
    }
    repo.set_head(refname)?;
    repo.checkout_head(Some(git2::build::CheckoutBuilder::default().force()))?;
    Ok(())
}

/// Relies on git2 Reference::set_target, Repository::set_head and
/// checkout_head (force): force-resets the existing named branch to the
/// fetched commit and makes the working tree match. Fails when the branch
/// does not exist.
#[verifier::external_body]
pub(crate) fn reset_branch_to(
    repo: &git2::Repository,
    refname: &str,
    fetch_commit: &git2::AnnotatedCommit<'_>,
    reflog_msg: &str,
) -> Result<(), git2::Error> {
    let mut reference = repo.find_reference(refname)?;
    reference.set_target(fetch_commit.id(), reflog_msg)?;
    repo.set_head(refname)?;
    repo.checkout_head(Some(git2::build::CheckoutBuilder::default().force()))?;
    Ok(())
}

/// Relies on git2 Repository::merge_base, find_commit, Commit::tree and
/// merge_trees: the three-way merge of the local and fetched commits through
/// their common ancestor, as an index that may hold conflicts. Nothing is
/// committed or checked out.
#[verifier::external_body]
pub(crate) fn merge_trees_of(
    repo: &git2::Repository,
    local: &git2::AnnotatedCommit<'_>,
    remote: &git2::AnnotatedCommit<'_>,
) -> Result<git2::Index, git2::Error> {
    let local_tree = repo.find_commit(local.id())?.tree()?;
    let remote_tree = repo.find_commit(remote.id())?.tree()?;
    let ancestor = repo.find_commit(repo.merge_base(local.id(), remote.id())?)?.tree()?;
    repo.merge_trees(&ancestor, &local_tree, &remote_tree, None)
}

/// Relies on git2 Index::has_conflicts.
#[verifier::external_body]
pub(crate) fn index_has_conflicts(index: &git2::Index) -> bool {
    index.has_conflicts()
}

/// Relies on git2 Repository::checkout_index: writes the conflicted merge
/// state into the working tree and index, without committing.
#[verifier::external_body]
pub(crate) fn checkout_conflicted_index(
    repo: &git2::Repository,
    index: &mut git2::Index,
) -> Result<(), git2::Error> {
    repo.checkout_index(Some(index), None)
}

/// Relies on git2 Index::write_tree_to, Repository::find_tree, signature,
/// find_commit, commit and checkout_head: commits the merged tree with the
/// local and fetched commits as its two parents, moving the head, and checks
/// the result out.
#[verifier::external_body]
pub(crate) fn commit_merged_index(
    repo: &git2::Repository,
    index: &mut git2::Index,
    local: &git2::AnnotatedCommit<'_>,
    remote: &git2::AnnotatedCommit<'_>,
    message: &str,
) -> Result<(), git2::Error> {
    let result_tree = repo.find_tree(index.write_tree_to(repo)?)?;
    let sig = repo.signature()?;
    let local_commit = repo.find_commit(local.id())?;
    let remote_commit = repo.find_commit(remote.id())?;
    repo.commit(Some("HEAD"), &sig, &sig, message, &result_tree, &[&local_commit, &remote_commit])?;
    repo.checkout_head(None)?;
    Ok(())
}

/// Relies on git2 Repository::checkout_head (force): makes the working tree
/// match the repository's recorded head state.
#[verifier::external_body]
pub(crate) fn checkout_head_force(repo: &git2::Repository) -> Result<(), git2::Error> {
    repo.checkout_head(Some(git2::build::CheckoutBuilder::default().force()))
}

/// Relies on git2 Repository::signature and stash_save (including untracked
/// files): stashes the local modifications and names the stash commit;
/// `None` when the engine could not create a stash.
#[verifier::external_body]
pub(crate) fn stash_save_all(repo: &mut git2::Repository, message: &str) -> Option<git2::Oid> {
    let sig = repo.signature().ok()?;
    repo.stash_save(&sig, message, Some(git2::StashFlags::INCLUDE_UNTRACKED)).ok()
}

/// Relies on git2 Repository::stash_foreach: the current position of the
/// stash commit with that id, `None` when no stash entry has it.
#[verifier::external_body]
pub(crate) fn find_stash_index(repo: &mut git2::Repository, stash_id: &git2::Oid) -> Option<
    usize,
> {
    let mut found: Option<usize> = None;
    let _ = repo.stash_foreach(|i, _name, oid| {
        if oid == stash_id {
            found = Some(i);
            false
        } else {
            true
        }
    });
    found
}

/// Relies on git2 Repository::stash_pop: reapplies the stash entry at that
/// position and drops it.
#[verifier::external_body]
pub(crate) fn stash_pop_at(repo: &mut git2::Repository, index: usize) -> Result<
    (),
    git2::Error,
> {
    repo.stash_pop(index, None)
}

} // verus!
