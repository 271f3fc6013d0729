//! Credential negotiation for authenticated fetches: an ordered list of
//! strategies, tried until the first one yields usable material.
//!
//! The order and the short-circuiting are verified; whether a given key file
//! loads, an agent answers, or a helper knows the remote is the environment's
//! business and shows up only in the attempt log.

use vstd::prelude::*;

verus! {

/// One way to obtain credential material, in the order the negotiator tries
/// them.
#[derive(Clone, Copy, Debug, PartialEq, Eq, Structural)]
pub enum CredentialStrategy {
    /// A modern key file (`id_ed25519`) in the user's credential directory.
    ModernKeyFile,
    /// A legacy key file (`id_rsa`) in the user's credential directory.
    LegacyKeyFile,
    /// An already-running key agent.
    SshAgent,
    /// The locally configured credential helper (username/password).
    CredentialHelper,
}

/// The ordered attempts for a remote that accepts the given credential kinds:
/// all key strategies — modern file, legacy file, agent — before the password
/// helper.
pub open spec fn spec_plan(key_allowed: bool, password_allowed: bool) -> Seq<CredentialStrategy> {
    (if key_allowed {
        seq![
            CredentialStrategy::ModernKeyFile,
            CredentialStrategy::LegacyKeyFile,
            CredentialStrategy::SshAgent,
        ]
    } else {
        Seq::<CredentialStrategy>::empty()
    }) + (if password_allowed {
        seq![CredentialStrategy::CredentialHelper]
    } else {
        Seq::<CredentialStrategy>::empty()
    })
}

/// Credential ordering: whenever key-based auth is accepted, the modern key
/// file is planned first, the legacy key file second and the agent third; the
/// password helper, when accepted, comes only after every key strategy.
pub proof fn lemma_credential_order(key_allowed: bool, password_allowed: bool)
    ensures
        key_allowed ==> {
            &&& spec_plan(key_allowed, password_allowed)[0] == CredentialStrategy::ModernKeyFile
            &&& spec_plan(key_allowed, password_allowed)[1] == CredentialStrategy::LegacyKeyFile
            &&& spec_plan(key_allowed, password_allowed)[2] == CredentialStrategy::SshAgent
        },
        forall|i: int|
            0 <= i < spec_plan(key_allowed, password_allowed).len() && spec_plan(
                key_allowed,
                password_allowed,
            )[i] == CredentialStrategy::CredentialHelper ==> i == spec_plan(
                key_allowed,
                password_allowed,
            ).len() - 1,
{
}

/// The ordered attempts, as the negotiator walks them.
pub fn plan_attempts(key_allowed: bool, password_allowed: bool) -> (r: Vec<CredentialStrategy>)
    ensures
        r@ == spec_plan(key_allowed, password_allowed),
{
    let mut plan: Vec<CredentialStrategy> = Vec::new();
    if key_allowed {
        plan.push(CredentialStrategy::ModernKeyFile);
        plan.push(CredentialStrategy::LegacyKeyFile);
        plan.push(CredentialStrategy::SshAgent);
    }
    if password_allowed {
        plan.push(CredentialStrategy::CredentialHelper);
    }
    proof {
        assert(plan@ =~= spec_plan(key_allowed, password_allowed));
    }
    plan
}

/// One entry of a negotiation's attempt log.
#[derive(Clone, Copy, Debug, PartialEq, Eq, Structural)]
pub struct AttemptRecord {
    pub strategy: CredentialStrategy,
    pub succeeded: bool,
}

/// The log `r` records a negotiation over `plan`: attempts follow the plan in
/// order, every attempt before the last failed, and the negotiation stopped
/// early only on a success.
pub open spec fn spec_negotiation_log(plan: Seq<CredentialStrategy>, log: Seq<AttemptRecord>, got_credential: bool) -> bool {
    &&& log.len() <= plan.len()
    &&& forall|i: int| 0 <= i < log.len() ==> (#[trigger] log[i]).strategy == plan[i]
    &&& forall|i: int| 0 <= i < log.len() - 1 ==> !(#[trigger] log[i]).succeeded
    &&& got_credential <==> log.len() > 0 && log.last().succeeded
    &&& !got_credential ==> log.len() == plan.len()
}

/// Manages authentication credentials for remote operations, rooted at the
/// user's home directory.
#[derive(Clone, Debug)]
pub struct CredentialManager {
    home_dir: String,
}

/// The repository configuration a credential helper is looked up in, carried
/// opaquely between the fetch callbacks and the negotiator. (Held behind an
/// opaque struct of this crate because the engine's configuration type cannot
/// be declared here by name.)
#[verifier::external_body]
pub struct HelperSource {
    inner: Option<git2::Config>,
}

/// Relies on git2 Repository::config: the configuration a credential helper
/// would be looked up in.
#[verifier::external_body]
pub(crate) fn helper_source(repo: &git2::Repository) -> HelperSource {
    HelperSource { inner: repo.config().ok() }
}

/// Relies on std::path::Path::exists: whether a file is present at the path.
#[verifier::external_body]
fn file_exists(path: &str) -> bool {
    std::path::Path::new(path).exists()
}

/// Relies on git2 Cred::ssh_key: credential material from the private key
/// file at the path, `None` when the engine cannot load it.
#[verifier::external_body]
fn try_ssh_key_file(username: &str, path: &str) -> Option<git2::Cred> {
    git2::Cred::ssh_key(username, None, std::path::Path::new(path), None).ok()
}

/// Relies on git2 Cred::ssh_key_from_agent: credential material for querying
/// a running key agent, `None` when the engine cannot set it up.
#[verifier::external_body]
fn try_ssh_agent(username: &str) -> Option<git2::Cred> {
    git2::Cred::ssh_key_from_agent(username).ok()
}

/// Relies on git2 Cred::credential_helper: a username/password pair from the
/// locally configured credential helper, `None` when no helper answers.
#[verifier::external_body]
fn try_credential_helper(
    source: &HelperSource,
    url: &str,
    username: Option<&str>,
) -> Option<git2::Cred> {
    let config = source.inner.as_ref()?;
    git2::Cred::credential_helper(config, url, username).ok()
}

impl CredentialManager {
    /// A manager whose key files live under `home_dir`.
    pub fn new(home_dir: String) -> (r: CredentialManager)
        ensures
            r.spec_home_dir() == home_dir@,
    {
        CredentialManager { home_dir }
    }

    /// The home directory the key files live under.
    pub closed spec fn spec_home_dir(&self) -> Seq<char> {
        self.home_dir@
    }

    /// Where the modern key file is looked for.
    pub fn modern_key_path(&self) -> (r: String)
        ensures
            r@ == self.spec_home_dir() + "/.ssh/id_ed25519"@,
    {
        self.home_dir.clone().concat("/.ssh/id_ed25519")
    }

    /// Where the legacy key file is looked for.
    pub fn legacy_key_path(&self) -> (r: String)
        ensures
            r@ == self.spec_home_dir() + "/.ssh/id_rsa"@,
    {
        self.home_dir.clone().concat("/.ssh/id_rsa")
    }

    /// Try one strategy. An absent key file counts as a failed attempt, and
    /// so does the helper strategy when no helper configuration is at hand.
    fn attempt(
        &self,
        strategy: CredentialStrategy,
        username: &str,
        helper: Option<&HelperSource>,
        url: &str,
    ) -> (r: Option<git2::Cred>)
        ensures
            strategy == CredentialStrategy::CredentialHelper && helper is None ==> r is None,
    {
        match strategy {
            CredentialStrategy::ModernKeyFile => {
                let path = self.modern_key_path();
                if file_exists(path.as_str()) {
                    try_ssh_key_file(username, path.as_str())
                } else {
                    None
                }
            },
            CredentialStrategy::LegacyKeyFile => {
                let path = self.legacy_key_path();
                if file_exists(path.as_str()) {
                    try_ssh_key_file(username, path.as_str())
                } else {
                    None
                }
            },
            CredentialStrategy::SshAgent => try_ssh_agent(username),
            CredentialStrategy::CredentialHelper => match helper {
                Some(source) => try_credential_helper(source, url, Some(username)),
                None => None,
            },
        }
    }

    /// Negotiate credential material for a remote that accepts the given
    /// kinds: walk the planned strategies in order and stop at the first that
    /// yields material. The returned log records exactly which strategies
    /// were attempted and that the first success short-circuited the rest;
    /// `None` means every planned strategy was attempted and failed. When
    /// only the helper strategy is planned and no helper configuration is at
    /// hand, no material can come back.
    pub fn get_ssh_credentials(
        &self,
        username: Option<&str>,
        key_allowed: bool,
        password_allowed: bool,
        helper: Option<&HelperSource>,
        url: &str,
    ) -> (r: (Option<git2::Cred>, Vec<AttemptRecord>))
        ensures
            spec_negotiation_log(spec_plan(key_allowed, password_allowed), r.1@, r.0 is Some),
            !key_allowed && helper is None ==> r.0 is None,
    {
        let username = match username {
            Some(u) => u,
            None => "git",
        };
        let plan = plan_attempts(key_allowed, password_allowed);
        let mut log: Vec<AttemptRecord> = Vec::new();
        let n = plan.len();
        let mut i: usize = 0;
        while i < n
            invariant
                i <= n,
                n == plan@.len(),
                plan@ == spec_plan(key_allowed, password_allowed),
                log@.len() == i,
                forall|j: int| 0 <= j < i ==> (#[trigger] log@[j]).strategy == plan@[j],
                forall|j: int| 0 <= j < i ==> !(#[trigger] log@[j]).succeeded,
            decreases n - i,
        {
            let strategy = plan[i];
            proof {
                if !key_allowed {
                    assert(spec_plan(key_allowed, password_allowed) =~= (if password_allowed {
                        seq![CredentialStrategy::CredentialHelper]
                    } else {
                        Seq::<CredentialStrategy>::empty()
                    }));
                    assert(plan@[i as int] == CredentialStrategy::CredentialHelper);
                }
            }
            let outcome = self.attempt(strategy, username, helper, url);
            match outcome {
                Some(cred) => {
                    log.push(AttemptRecord { strategy, succeeded: true });
                    return (Some(cred), log);
                },
                None => {
                    log.push(AttemptRecord { strategy, succeeded: false });
                },
            }
            i = i + 1;
        }
        (None, log)
    }

    /// Relies on git2 RemoteCallbacks::credentials and Repository::config:
    /// remote callbacks that answer every credential request by negotiating
    /// through this manager, against the repository's configured helper.
    #[verifier::external_body]
    pub fn create_callbacks(&self, repo: &git2::Repository) -> git2::RemoteCallbacks<'static> {
        let helper = helper_source(repo);
        let manager = self.clone();
        let mut callbacks = git2::RemoteCallbacks::new();
        callbacks.credentials(move |url, username_from_url, allowed_types| {
            let (cred, _attempts) = manager.get_ssh_credentials(
                username_from_url,
                allowed_types.contains(git2::CredentialType::SSH_KEY),
                allowed_types.contains(git2::CredentialType::USER_PASS_PLAINTEXT),
                Some(&helper),
                url,
            );
            cred.ok_or_else(|| git2::Error::from_str("No valid credentials available"))
        });
        callbacks
    }
}

} // verus!
