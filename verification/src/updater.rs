//! Batch coordination: aggregating the per-repository records of one run into
//! a batch result whose counts always add up.

use vstd::prelude::*;
use vstd::multiset::Multiset;
use rayon::iter::IntoParallelRefIterator;
use rayon::iter::ParallelIterator;
use crate::credentials_manager::CredentialManager;
use crate::git_update::RepoUpdater;
use crate::progress::board_draw;
use crate::progress::board_report;
use crate::progress::display_name;
use crate::progress::shared_board_new;
use crate::progress::ProgressDisplay;
use crate::progress::RepoStatus;
use crate::progress::SharedBoard;
use crate::results::spec_failure_reason;
use crate::results::UpdateResult;

verus! {

/// How many records of the collection report success. Stated over a multiset,
/// so it cannot depend on the order in which repositories completed.
pub open spec fn spec_successful(m: Multiset<UpdateResult>) -> nat {
    m.filter(|r: UpdateResult| r.success).len()
}

/// Inserting one record into a collection grows the success count by one
/// exactly when the record reports success.
proof fn lemma_filter_insert<A>(m: Multiset<A>, f: spec_fn(A) -> bool, a: A)
    ensures
        f(a) ==> m.insert(a).filter(f) =~= m.filter(f).insert(a),
        !f(a) ==> m.insert(a).filter(f) =~= m.filter(f),
{
    broadcast use vstd::multiset::group_multiset_axioms;

    if f(a) {
        assert forall|v: A| m.insert(a).filter(f).count(v) == m.filter(f).insert(a).count(v) by {
            assert(m.insert(a).count(v) == m.count(v) + if v == a {
                1nat
            } else {
                0nat
            });
        }
    } else {
        assert forall|v: A| m.insert(a).filter(f).count(v) == m.filter(f).count(v) by {
            assert(m.insert(a).count(v) == m.count(v) + if v == a {
                1nat
            } else {
                0nat
            });
        }
    }
}

/// The aggregated outcome of one batch run.
#[derive(Debug)]
pub struct BatchUpdateResult {
    pub total: usize,
    pub successful: usize,
    pub failed: usize,
    pub results: Vec<UpdateResult>,
}

impl BatchUpdateResult {
    /// The counts describe the records: one record per repository, the
    /// success count is the number of records reporting success, and
    /// `successful + failed == total` always.
    pub open spec fn well_formed(&self) -> bool {
        &&& self.total == self.results@.len()
        &&& self.successful == spec_successful(self.results@.to_multiset())
        &&& self.successful + self.failed == self.total
    }
}

/// Fold the per-repository records of one run into a batch result.
pub fn aggregate(results: Vec<UpdateResult>) -> (r: BatchUpdateResult)
    ensures
        r.well_formed(),
        r.results == results,
        r.total == results@.len(),
{
    broadcast use vstd::multiset::group_multiset_axioms;

    let n = results.len();
    let mut successful: usize = 0;
    let mut failed: usize = 0;
    let mut i: usize = 0;
    proof {
        results@.to_multiset_ensures();
        let e = results@.take(0);
        e.to_multiset_ensures();
        assert(e.len() == 0);
        vstd::multiset::lemma_multiset_empty_len::<UpdateResult>(e.to_multiset());
        assert(e.to_multiset() =~= Multiset::<UpdateResult>::empty());
        assert(Multiset::<UpdateResult>::empty().filter(
            |r: UpdateResult| r.success,
        ) =~= Multiset::<UpdateResult>::empty());
    }
    while i < n
        invariant
            i <= n,
            n == results@.len(),
            successful + failed == i,
            successful == spec_successful(results@.take(i as int).to_multiset()),
        decreases n - i,
    {
        proof {
            results@.take(i as int).to_multiset_ensures();
            assert(results@.take(i + 1) =~= results@.take(i as int).push(results@[i as int]));
            lemma_filter_insert(
                results@.take(i as int).to_multiset(),
                |r: UpdateResult| r.success,
                results@[i as int],
            );
        }
        if results[i].success {
            successful = successful + 1;
        } else {
            failed = failed + 1;
        }
        i = i + 1;
    }
    proof {
        assert(results@.take(n as int) =~= results@);
    }
    BatchUpdateResult { total: n, successful, failed, results }
}

/// Order-independence: two runs whose records are the same collection — in
/// whatever completion order — aggregate to the same counts.
pub proof fn lemma_aggregate_order_independent(s1: Seq<UpdateResult>, s2: Seq<UpdateResult>)
    requires
        s1.to_multiset() == s2.to_multiset(),
    ensures
        s1.len() == s2.len(),
        spec_successful(s1.to_multiset()) == spec_successful(s2.to_multiset()),
{
    s1.to_multiset_ensures();
    s2.to_multiset_ensures();
}

/// How a batch run behaves outwardly.
#[derive(Clone, Copy, Debug, PartialEq, Eq, Structural)]
pub struct UpdateConfig {
    /// Suppress the live status panel.
    pub quiet: bool,
    /// Verbose diagnostics (for the caller's own logging).
    pub verbose: bool,
}

impl UpdateConfig {
    pub fn new(quiet: bool, verbose: bool) -> (r: UpdateConfig)
        ensures
            r == (UpdateConfig { quiet, verbose }),
    {
        UpdateConfig { quiet, verbose }
    }
}

/// What one batch run guarantees of the record at a path: it is that path's
/// record, it is well formed (an error recorded exactly on failure), a
/// success carries its fetch snapshot and merge classification, and a failure
/// carries neither but does carry a reason of one of the four fixed shapes.
pub open spec fn record_for(r: UpdateResult, path: Seq<char>) -> bool {
    &&& r.repo_path@ == path
    &&& r.well_formed()
    &&& r.success ==> r.fetch_info is Some && r.merge_info is Some
    &&& !r.success ==> {
        &&& r.fetch_info is None
        &&& r.merge_info is None
        &&& r.error matches Some(m) && spec_failure_reason(m@)
    }
}

/// Synchronize the one repository at `path`, reporting its transitions to the
/// board, and convert whatever happened — including a repository that cannot
/// be opened — into exactly one terminal record. Nothing propagates out.
pub fn update_single(
    credentials: &CredentialManager,
    board: Option<&SharedBoard>,
    path: &String,
) -> (r: UpdateResult)
    ensures
        record_for(r, path@),
{
    let name = display_name(path.as_str());
    match board {
        Some(b) => board_report(b, name.as_str(), RepoStatus::Fetching),
        None => {},
    }
    let result = match RepoUpdater::new(path.clone(), credentials.clone()) {
        Ok(mut updater) => updater.update(board, name.as_str()),
        Err(e) => UpdateResult::failed(path.clone(), String::from_str("unknown"), e.message(), 0),
    };
    match board {
        Some(b) => {
            if result.success {
                board_report(b, name.as_str(), RepoStatus::Success);
            } else {
                let reason = match &result.error {
                    Some(msg) => msg.clone(),
                    None => String::new(),
                };
                board_report(b, name.as_str(), RepoStatus::Failed(reason));
            }
        },
        None => {},
    }
    result
}

/// Relies on rayon's parallel iteration (par_iter, map, collect) over the
/// path list: an indexed parallel map collects exactly one element per input,
/// in the input's order, so position `i` holds what `update_single` returned
/// for path `i` — a record meeting `record_for`, by that function's verified
/// contract.
#[verifier::external_body]
fn par_update(
    credentials: &CredentialManager,
    board: &SharedBoard,
    repo_paths: &Vec<String>,
) -> (r: Vec<UpdateResult>)
    ensures
        r@.len() == repo_paths@.len(),
        forall|i: int| 0 <= i < repo_paths@.len() ==> #[trigger] record_for(
            r@[i],
            repo_paths@[i]@,
        ),
{
    repo_paths.par_iter().map(|path| update_single(credentials, Some(board), path)).collect()
}

/// Runs one synchronizer per repository and aggregates the records.
pub struct BatchUpdater {
    config: UpdateConfig,
    credentials: CredentialManager,
}

impl BatchUpdater {
    /// A coordinator whose workers negotiate credentials from key files under
    /// `home_dir`.
    pub fn new(config: UpdateConfig, home_dir: String) -> (r: BatchUpdater)
        ensures
            r.spec_config() == config,
            r.spec_home_dir() == home_dir@,
    {
        BatchUpdater { config, credentials: CredentialManager::new(home_dir) }
    }

    /// How this coordinator was configured.
    pub closed spec fn spec_config(&self) -> UpdateConfig {
        self.config
    }

    /// The home directory its workers negotiate key credentials from.
    pub closed spec fn spec_home_dir(&self) -> Seq<char> {
        self.credentials.spec_home_dir()
    }

    /// Synchronize every repository in parallel on the worker pool, with live
    /// status lines keyed by each path's display name, and aggregate the
    /// records: one per repository and re-keyable by its path, failures
    /// contained in their own record, `successful + failed == total` always.
    pub fn update_all(&self, repo_paths: &Vec<String>) -> (r: BatchUpdateResult)
        ensures
            r.well_formed(),
            r.total == repo_paths@.len(),
            forall|i: int| 0 <= i < repo_paths@.len() ==> #[trigger] record_for(
                r.results@[i],
                repo_paths@[i]@,
            ),
    {
        let n = repo_paths.len();
        let mut names: Vec<String> = Vec::new();
        let mut i: usize = 0;
        while i < n
            invariant
                i <= n,
                n == repo_paths@.len(),
                names@.len() == i,
            decreases n - i,
        {
            names.push(display_name(repo_paths[i].as_str()));
            i = i + 1;
        }
        let board = shared_board_new(ProgressDisplay::new(&names));
        if !self.config.quiet {
            board_draw(&board);
        }
        let results = par_update(&self.credentials, &board, repo_paths);
        aggregate(results)
    }

    /// Synchronize every repository one after the other, in the given order,
    /// with the same per-record guarantees as the parallel run.
    pub fn update_each(&self, repo_paths: &Vec<String>) -> (r: BatchUpdateResult)
        ensures
            r.well_formed(),
            r.total == repo_paths@.len(),
            forall|i: int| 0 <= i < repo_paths@.len() ==> #[trigger] record_for(
                r.results@[i],
                repo_paths@[i]@,
            ),
    {
        let n = repo_paths.len();
        let mut results: Vec<UpdateResult> = Vec::new();
        let mut i: usize = 0;
        while i < n
            invariant
                i <= n,
                n == repo_paths@.len(),
                results@.len() == i,
                forall|j: int| 0 <= j < i ==> #[trigger] record_for(
                    results@[j],
                    repo_paths@[j]@,
                ),
            decreases n - i,
        {
            results.push(update_single(&self.credentials, None, &repo_paths[i]));
            i = i + 1;
        }
        aggregate(results)
    }
}

} // verus!
