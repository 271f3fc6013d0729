//! End-to-end scenarios against real local repositories: every repository and
//! remote is created on the spot through the git engine, and synchronization
//! runs against a path-addressed `origin`.

use std::path::Path;
use std::time::{SystemTime, UNIX_EPOCH};
use zsh_mgr_rs::credentials_manager::CredentialManager;
use zsh_mgr_rs::git_update::{any_entry_dirty, entry_is_dirty, RepoUpdater, StatusFlags};
use zsh_mgr_rs::merge::{MergeAnalysisFlags, MergeOutcome};
use zsh_mgr_rs::results::MergeType;
use zsh_mgr_rs::updater::{update_single, BatchUpdater, UpdateConfig};

fn unique_dir(tag: &str) -> String {
    let nanos = SystemTime::now().duration_since(UNIX_EPOCH).unwrap().as_nanos();
    format!("/tmp/zmt_{}_{}", tag, nanos)
}

fn manager() -> CredentialManager {
    CredentialManager::new(String::from("/tmp/zmt_no_such_home"))
}

fn sig() -> git2::Signature<'static> {
    git2::Signature::now("tester", "tester@example.invalid").unwrap()
}

fn set_user(repo: &git2::Repository) {
    let mut config = repo.config().unwrap();
    config.set_str("user.name", "tester").unwrap();
    config.set_str("user.email", "tester@example.invalid").unwrap();
}

/// Commit `content` at `path` on the current branch, on top of whatever the
/// head tree holds.
fn commit_file(repo: &git2::Repository, path: &str, content: &[u8], msg: &str) -> git2::Oid {
    let blob = repo.blob(content).unwrap();
    let base_tree = repo.head().ok().and_then(|h| h.peel_to_tree().ok());
    let mut builder = repo.treebuilder(base_tree.as_ref()).unwrap();
    builder.insert(path, blob, 0o100644).unwrap();
    let tree = repo.find_tree(builder.write().unwrap()).unwrap();
    let parent = repo.head().ok().and_then(|h| h.peel_to_commit().ok());
    let parents: Vec<&git2::Commit> = parent.iter().collect();
    repo.commit(Some("HEAD"), &sig(), &sig(), msg, &tree, &parents).unwrap()
}

fn init_origin(dir: &str) -> git2::Repository {
    let repo = git2::Repository::init(dir).unwrap();
    commit_file(&repo, "base.txt", b"base\n", "initial");
    repo
}

fn clone_from(origin: &str, dir: &str) -> git2::Repository {
    git2::build::RepoBuilder::new().clone(origin, Path::new(dir)).unwrap()
}

fn head_id(dir: &str) -> git2::Oid {
    git2::Repository::open(dir).unwrap().head().unwrap().target().unwrap()
}

#[test]
fn repository_at_remote_tip_is_up_to_date_twice() {
    // Scenario: the clone already matches its remote branch; synchronizing is
    // idempotent — `UpToDate`, success and no error, both times.
    let origin_dir = unique_dir("uptodate_origin");
    let clone_dir = unique_dir("uptodate_clone");
    init_origin(&origin_dir);
    clone_from(&origin_dir, &clone_dir);

    let tip_before = head_id(&clone_dir);
    for _ in 0..2 {
        let result = update_single(&manager(), None, &clone_dir);
        assert!(result.success, "error: {:?}", result.error);
        assert!(result.error.is_none());
        let info = result.merge_info.unwrap();
        assert_eq!(info.merge_type, MergeType::UpToDate);
        assert!(!info.conflicts);
        assert_eq!(head_id(&clone_dir), tip_before);
    }
}

#[test]
fn repository_behind_remote_fast_forwards_to_its_tip() {
    // Scenario: the clone is three commits behind a fast-forwardable remote
    // branch; afterwards the local tip equals the remote tip.
    let origin_dir = unique_dir("ff_origin");
    let clone_dir = unique_dir("ff_clone");
    let origin = init_origin(&origin_dir);
    clone_from(&origin_dir, &clone_dir);

    commit_file(&origin, "one.txt", b"1\n", "c1");
    commit_file(&origin, "two.txt", b"2\n", "c2");
    let remote_tip = commit_file(&origin, "three.txt", b"3\n", "c3");
    assert_ne!(head_id(&clone_dir), remote_tip);

    let result = update_single(&manager(), None, &clone_dir);
    assert!(result.success, "error: {:?}", result.error);
    let info = result.merge_info.unwrap();
    assert_eq!(info.merge_type, MergeType::FastForward);
    assert!(!info.conflicts);
    assert_eq!(head_id(&clone_dir), remote_tip);
    assert!(result.fetch_info.unwrap().objects_received > 0);
}

#[test]
fn overlapping_edits_stop_without_a_merge_commit() {
    // Conflict containment: a three-way merge with overlapping edits reports
    // the conflicts, leaves the local branch tip exactly where it was, and
    // the working tree shows the conflicting path.
    let origin_dir = unique_dir("conflict_origin");
    let clone_dir = unique_dir("conflict_clone");
    let origin = init_origin(&origin_dir);
    let clone = clone_from(&origin_dir, &clone_dir);
    set_user(&clone);

    commit_file(&origin, "base.txt", b"origin change\n", "origin edit");
    let local_tip = commit_file(&clone, "base.txt", b"local change\n", "local edit");

    let result = update_single(&manager(), None, &clone_dir);
    assert!(result.success, "error: {:?}", result.error);
    let info = result.merge_info.unwrap();
    assert_eq!(info.merge_type, MergeType::Normal);
    assert!(info.conflicts);
    assert_eq!(head_id(&clone_dir), local_tip);

    let reopened = git2::Repository::open(&clone_dir).unwrap();
    let statuses = reopened.statuses(None).unwrap();
    let conflicted = statuses.iter().any(|e| e.status().is_conflicted());
    assert!(conflicted);
}

#[test]
fn disjoint_edits_merge_into_a_two_parent_commit() {
    let origin_dir = unique_dir("merge_origin");
    let clone_dir = unique_dir("merge_clone");
    let origin = init_origin(&origin_dir);
    let clone = clone_from(&origin_dir, &clone_dir);
    set_user(&clone);

    commit_file(&origin, "remote_side.txt", b"r\n", "remote edit");
    commit_file(&clone, "local_side.txt", b"l\n", "local edit");

    let result = update_single(&manager(), None, &clone_dir);
    assert!(result.success, "error: {:?}", result.error);
    let info = result.merge_info.unwrap();
    assert_eq!(info.merge_type, MergeType::Normal);
    assert!(!info.conflicts);

    let reopened = git2::Repository::open(&clone_dir).unwrap();
    let head = reopened.head().unwrap().peel_to_commit().unwrap();
    assert_eq!(head.parent_count(), 2);
}

#[test]
fn diverged_truncated_history_is_force_reset_to_the_remote_tip() {
    // Scenario: a clone whose history is truncated diverged from its remote.
    // With no usable merge base a true merge is impossible, so the dispatch
    // force-resets the branch to the fetched commit and the local-only commit
    // is discarded — documented lossy behavior. (The local transport cannot
    // produce a shallow clone, so the truncated-history dispatch is driven
    // directly.)
    let origin_dir = unique_dir("shallow_origin");
    let clone_dir = unique_dir("shallow_clone");
    let origin = init_origin(&origin_dir);
    let clone = clone_from(&origin_dir, &clone_dir);
    set_user(&clone);

    let remote_tip = commit_file(&origin, "third.txt", b"3\n", "c2");
    let local_only = commit_file(&clone, "local.txt", b"l\n", "local-only");
    assert_ne!(local_only, remote_tip);

    let updater = RepoUpdater::new(clone_dir.clone(), manager()).unwrap();
    let branch = updater.get_current_branch().unwrap();
    updater.fetch(&branch).unwrap();

    let handle = git2::Repository::open(&clone_dir).unwrap();
    let fetch_head = handle.find_reference("FETCH_HEAD").unwrap();
    let fetch_commit = handle.reference_to_annotated_commit(&fetch_head).unwrap();

    // Diverged histories on a truncated clone: mergeable but not
    // fast-forwardable, with the shallow bit set.
    let flags = MergeAnalysisFlags { fast_forward: false, normal: true, up_to_date: false };

    // Resetting a branch that does not exist is an engine failure, reported
    // as the merge error.
    let missing = updater.do_merge("no_such_branch", flags, true, &fetch_commit);
    assert!(matches!(missing, Err(zsh_mgr_rs::results::SyncError::Merge(_))));

    let outcome = updater.do_merge(&branch, flags, true, &fetch_commit).unwrap();
    assert_eq!(outcome, MergeOutcome::ShallowReset);
    assert_eq!(head_id(&clone_dir), remote_tip);

    let info = zsh_mgr_rs::results::merge_info_of(outcome);
    assert_eq!(info.merge_type, MergeType::Normal);
    assert!(!info.conflicts);
}

#[test]
fn run_reports_the_analysis_it_acted_on() {
    let origin_dir = unique_dir("report_origin");
    let clone_dir = unique_dir("report_clone");
    init_origin(&origin_dir);
    clone_from(&origin_dir, &clone_dir);

    let mut updater = RepoUpdater::new(clone_dir.clone(), manager()).unwrap();
    let report = updater.run(None, "report_clone").unwrap();
    assert!(report.flags.up_to_date);
    assert!(!report.flags.fast_forward);
    assert_eq!(report.outcome, MergeOutcome::UpToDate);
    assert!(!report.shallow);
    assert!(!report.was_dirty);
    assert!(!report.stash_attempted);
    assert!(!report.stash_created);
}

fn clean_entry() -> StatusFlags {
    StatusFlags {
        wt_modified: false,
        wt_new: false,
        wt_deleted: false,
        wt_renamed: false,
        wt_typechange: false,
        index_modified: false,
        index_new: false,
        index_deleted: false,
        index_renamed: false,
        index_typechange: false,
    }
}

#[test]
fn dirty_rule_counts_every_tracked_kind_of_change() {
    assert!(!entry_is_dirty(&clean_entry()));
    assert!(!any_entry_dirty(&Vec::new()));
    assert!(!any_entry_dirty(&vec![clean_entry(), clean_entry()]));

    let one_flag_set = vec![
        StatusFlags { wt_modified: true, ..clean_entry() },
        StatusFlags { wt_new: true, ..clean_entry() },
        StatusFlags { wt_deleted: true, ..clean_entry() },
        StatusFlags { wt_renamed: true, ..clean_entry() },
        StatusFlags { wt_typechange: true, ..clean_entry() },
        StatusFlags { index_modified: true, ..clean_entry() },
        StatusFlags { index_new: true, ..clean_entry() },
        StatusFlags { index_deleted: true, ..clean_entry() },
        StatusFlags { index_renamed: true, ..clean_entry() },
        StatusFlags { index_typechange: true, ..clean_entry() },
    ];
    for entry in &one_flag_set {
        assert!(entry_is_dirty(entry));
        assert!(any_entry_dirty(&vec![clean_entry(), *entry]));
    }
}

#[test]
fn dirty_tree_is_stashed_and_restored_around_the_update() {
    // Stash safety: uncommitted changes survive a synchronization that
    // fast-forwards the branch underneath them.
    let origin_dir = unique_dir("stash_origin");
    let clone_dir = unique_dir("stash_clone");
    let origin = init_origin(&origin_dir);
    let clone = clone_from(&origin_dir, &clone_dir);
    set_user(&clone);

    let remote_tip = commit_file(&origin, "ahead.txt", b"ahead\n", "c1");

    // Stage a new file straight into the index: the tree is now dirty.
    let mut index = clone.index().unwrap();
    let entry = git2::IndexEntry {
        ctime: git2::IndexTime::new(0, 0),
        mtime: git2::IndexTime::new(0, 0),
        dev: 0,
        ino: 0,
        mode: 0o100644,
        uid: 0,
        gid: 0,
        file_size: 0,
        id: git2::Oid::ZERO_SHA1,
        flags: 0,
        flags_extended: 0,
        path: b"staged.txt".to_vec(),
    };
    index.add_frombuffer(&entry, b"kept across sync\n").unwrap();
    index.write().unwrap();
    drop(index);

    let result = update_single(&manager(), None, &clone_dir);
    assert!(result.success, "error: {:?}", result.error);
    assert_eq!(result.merge_info.unwrap().merge_type, MergeType::FastForward);
    assert_eq!(head_id(&clone_dir), remote_tip);

    // The staged edit is back after the update.
    let reopened = git2::Repository::open(&clone_dir).unwrap();
    let statuses = reopened.statuses(None).unwrap();
    let kept = statuses.iter().any(|e| matches!(e.path(), Ok("staged.txt")));
    assert!(kept);
}

#[test]
fn batch_isolates_the_repository_without_a_remote() {
    // Scenario: a batch of five repositories, one of which has no `origin`
    // remote; that one fails with an error naming the missing remote, the
    // other four succeed, and the counts add up.
    let origin_dir = unique_dir("batch_origin");
    init_origin(&origin_dir);

    let mut paths: Vec<String> = Vec::new();
    for i in 0..4 {
        let clone_dir = unique_dir(&format!("batch_clone_{}", i));
        clone_from(&origin_dir, &clone_dir);
        paths.push(clone_dir);
    }
    let lonely_dir = unique_dir("batch_no_remote");
    let lonely = git2::Repository::init(&lonely_dir).unwrap();
    commit_file(&lonely, "alone.txt", b"alone\n", "initial");
    paths.push(lonely_dir.clone());

    let updater = BatchUpdater::new(UpdateConfig::new(true, false), String::from("/tmp/zmt_no_such_home"));
    let batch = updater.update_all(&paths);

    assert_eq!(batch.total, 5);
    assert_eq!(batch.successful, 4);
    assert_eq!(batch.failed, 1);
    assert_eq!(batch.results.len(), 5);

    let lonely_result = batch.results.iter().find(|r| r.repo_path == lonely_dir).unwrap();
    assert!(!lonely_result.success);
    let reason = lonely_result.error.as_deref().unwrap();
    assert!(reason.contains("origin"), "reason: {}", reason);
    for r in batch.results.iter().filter(|r| r.repo_path != lonely_dir) {
        assert!(r.success, "{} failed: {:?}", r.repo_path, r.error);
    }
}

#[test]
fn sequential_run_yields_the_same_outcomes_as_the_batch() {
    // Order-independence of correctness: the per-repository outcomes of a
    // parallel batch equal those of running each repository alone, one after
    // the other, given the same starting state.
    let origin_dir = unique_dir("seq_origin");
    let origin = init_origin(&origin_dir);

    // Two identically prepared pairs: one behind the remote, one at its tip.
    let behind_a = unique_dir("seq_behind_a");
    let behind_b = unique_dir("seq_behind_b");
    clone_from(&origin_dir, &behind_a);
    clone_from(&origin_dir, &behind_b);
    commit_file(&origin, "late.txt", b"late\n", "c1");
    let at_tip_a = unique_dir("seq_tip_a");
    let at_tip_b = unique_dir("seq_tip_b");
    clone_from(&origin_dir, &at_tip_a);
    clone_from(&origin_dir, &at_tip_b);

    let updater = BatchUpdater::new(UpdateConfig::new(true, false), String::from("/tmp/zmt_no_such_home"));
    let parallel = updater.update_all(&vec![behind_a.clone(), at_tip_a.clone()]);
    let sequential = updater.update_each(&vec![behind_b.clone(), at_tip_b.clone()]);

    assert_eq!(parallel.total, sequential.total);
    assert_eq!(parallel.successful, sequential.successful);
    assert_eq!(parallel.failed, sequential.failed);

    let merge_type_of = |batch: &zsh_mgr_rs::updater::BatchUpdateResult, path: &str| {
        batch.results.iter().find(|r| r.repo_path == path).unwrap().merge_info.unwrap().merge_type
    };
    assert_eq!(merge_type_of(&parallel, &behind_a), MergeType::FastForward);
    assert_eq!(merge_type_of(&sequential, &behind_b), MergeType::FastForward);
    assert_eq!(merge_type_of(&parallel, &at_tip_a), MergeType::UpToDate);
    assert_eq!(merge_type_of(&sequential, &at_tip_b), MergeType::UpToDate);
}

#[test]
fn detached_head_is_a_terminal_failure() {
    let origin_dir = unique_dir("detached_origin");
    let clone_dir = unique_dir("detached_clone");
    init_origin(&origin_dir);
    let clone = clone_from(&origin_dir, &clone_dir);
    let tip = clone.head().unwrap().target().unwrap();
    clone.set_head_detached(tip).unwrap();

    let result = update_single(&manager(), None, &clone_dir);
    assert!(!result.success);
    assert_eq!(result.error.as_deref(), Some("HEAD has no shorthand (detached)"));
    assert!(result.merge_info.is_none());
}

#[test]
fn missing_repository_is_a_terminal_failure() {
    let missing = unique_dir("missing_repo");
    let result = update_single(&manager(), None, &missing);
    assert!(!result.success);
    assert!(result.error.as_deref().unwrap().starts_with("Failed to open repository:"));
}
