//! Configuration paths and the tracked-plugin inventory.
//!
//! Paths are plain strings here; reading and writing the files they name is
//! the caller's business. The inventory is an in-memory list; loading and
//! saving it is likewise left to the caller.

use vstd::prelude::*;

verus! {

/// Where the manager keeps its plugins and configuration, and how often the
/// plugins and the manager itself are due for an update (seconds).
#[derive(Debug, Clone)]
pub struct Config {
    pub plugin_dir: String,
    pub config_dir: String,
    pub time_threshold: u64,
    pub mgr_time_threshold: u64,
}

/// The characters of `s` after its last `/`; all of `s` when it has none.
pub open spec fn spec_last_segment(s: Seq<char>) -> Seq<char>
    decreases s.len(),
{
    if s.len() == 0 {
        s
    } else if s[s.len() - 1] == '/' {
        Seq::<char>::empty()
    } else {
        spec_last_segment(s.drop_last()).push(s[s.len() - 1])
    }
}

/// A suffix of `s` that starts right after a `/` (or at the start) and holds
/// no further `/` is exactly `spec_last_segment(s)`.
proof fn lemma_last_segment_from(s: Seq<char>, cut: int)
    requires
        0 <= cut <= s.len(),
        cut == 0 || s[cut - 1] == '/',
        forall|j: int| cut <= j < s.len() ==> s[j] != '/',
    ensures
        spec_last_segment(s) == s.subrange(cut, s.len() as int),
    decreases s.len(),
{
    if cut == s.len() {
        assert(s.subrange(cut, s.len() as int) =~= Seq::<char>::empty());
        if s.len() > 0 {
            assert(s[s.len() - 1] == '/');
        }
    } else {
        assert(s[s.len() - 1] != '/');
        lemma_last_segment_from(s.drop_last(), cut);
        assert(s.drop_last().subrange(cut, s.len() - 1) =~= s.subrange(cut, s.len() - 1));
        assert(s.subrange(cut, s.len() - 1).push(s[s.len() - 1]) =~= s.subrange(
            cut,
            s.len() as int,
        ));
    }
}

/// The part of `name` after its last `/`: for a plugin tracked as
/// `user/repo`, the bare repository name.
pub fn last_segment(name: &str) -> (r: &str)
    ensures
        r@ == spec_last_segment(name@),
{
    let len = name.unicode_len();
    let mut cut: usize = len;
    loop
        invariant
            cut <= len,
            len == name@.len(),
            forall|j: int| cut <= j < len ==> name@[j] != '/',
        ensures
            cut <= len,
            cut == 0 || name@[cut - 1] == '/',
            forall|j: int| cut <= j < len ==> name@[j] != '/',
        decreases cut,
    {
        if cut == 0 {
            break ;
        }
        if name.get_char(cut - 1) == '/' {
            break ;
        }
        cut = cut - 1;
    }
    proof {
        lemma_last_segment_from(name@, cut as int);
    }
    name.substring_char(cut, len)
}

impl Config {
    /// Where the plugin inventory file lives.
    pub fn plugin_list_file(&self) -> (r: String)
        ensures
            r@ == self.plugin_dir@ + "/plugins.json"@,
    {
        self.plugin_dir.clone().concat("/plugins.json")
    }

    /// The hidden per-plugin timestamp file, named after the bare repository
    /// name (the part of the plugin name after its last `/`).
    pub fn timestamp_file(&self, plugin_name: &str) -> (r: String)
        ensures
            r@ == self.plugin_dir@ + "/."@ + spec_last_segment(plugin_name@),
    {
        let repo_name = last_segment(plugin_name);
        self.plugin_dir.clone().concat("/.").concat(repo_name)
    }

    /// The timestamp file of the manager itself.
    pub fn manager_timestamp_file(&self) -> (r: String)
        ensures
            r@ == self.plugin_dir@ + "/.zsh-mgr"@,
    {
        self.plugin_dir.clone().concat("/.zsh-mgr")
    }

    /// The working tree of a tracked plugin.
    pub fn plugin_path(&self, plugin_name: &str) -> (r: String)
        ensures
            r@ == self.plugin_dir@ + "/"@ + plugin_name@,
    {
        self.plugin_dir.clone().concat("/").concat(plugin_name)
    }
}

/// Whether `s` begins with `p`.
pub open spec fn spec_starts_with(s: Seq<char>, p: Seq<char>) -> bool {
    s.len() >= p.len() && s.subrange(0, p.len() as int) == p
}

/// Whether `s` ends with `p`.
pub open spec fn spec_ends_with(s: Seq<char>, p: Seq<char>) -> bool {
    s.len() >= p.len() && s.subrange(s.len() - p.len(), s.len() as int) == p
}

/// Whether the string begins with the prefix.
pub fn str_starts_with(s: &str, prefix: &str) -> (r: bool)
    ensures
        r == spec_starts_with(s@, prefix@),
{
    let n = s.unicode_len();
    let p = prefix.unicode_len();
    if n < p {
        return false;
    }
    let mut i: usize = 0;
    while i < p
        invariant
            i <= p,
            p <= n,
            n == s@.len(),
            p == prefix@.len(),
            forall|j: int| 0 <= j < i ==> s@[j] == prefix@[j],
        decreases p - i,
    {
        if s.get_char(i) != prefix.get_char(i) {
            proof {
                assert(s@.subrange(0, p as int)[i as int] == s@[i as int]);
            }
            return false;
        }
        i = i + 1;
    }
    proof {
        assert(s@.subrange(0, p as int) =~= prefix@);
    }
    true
}

/// Whether the string ends with the suffix.
pub fn str_ends_with(s: &str, suffix: &str) -> (r: bool)
    ensures
        r == spec_ends_with(s@, suffix@),
{
    let n = s.unicode_len();
    let p = suffix.unicode_len();
    if n < p {
        return false;
    }
    let base = n - p;
    let mut i: usize = 0;
    while i < p
        invariant
            i <= p,
            base == n - p,
            p <= n,
            n == s@.len(),
            p == suffix@.len(),
            forall|j: int| 0 <= j < i ==> s@[base + j] == suffix@[j],
        decreases p - i,
    {
        if s.get_char(base + i) != suffix.get_char(i) {
            proof {
                assert(s@.subrange(base as int, n as int)[i as int] == s@[base + i]);
            }
            return false;
        }
        i = i + 1;
    }
    proof {
        assert(s@.subrange(base as int, n as int) =~= suffix@);
    }
    true
}

/// `u` without a trailing `.git`, when it has one.
pub open spec fn spec_strip_dot_git(u: Seq<char>) -> Seq<char> {
    if spec_ends_with(u, ".git"@) {
        u.subrange(0, u.len() - ".git"@.len())
    } else {
        u
    }
}

/// The plugin name a remote url is tracked under: the repository part of a
/// well-known hosting url (scheme or ssh form) without its `.git` ending, and
/// the given fallback for any other url.
pub open spec fn spec_origin_name(url: Seq<char>, fallback: Seq<char>) -> Seq<char> {
    if spec_starts_with(url, "https://github.com/"@) {
        spec_strip_dot_git(url.subrange("https://github.com/"@.len() as int, url.len() as int))
    } else if spec_starts_with(url, "git@github.com:"@) {
        spec_strip_dot_git(url.subrange("git@github.com:"@.len() as int, url.len() as int))
    } else {
        fallback
    }
}

/// Drop a trailing `.git` from the url part.
fn strip_dot_git(s: &str) -> (r: &str)
    ensures
        r@ == spec_strip_dot_git(s@),
{
    if str_ends_with(s, ".git") {
        proof {
            reveal_strlit(".git");
        }
        s.substring_char(0, s.unicode_len() - 4)
    } else {
        s
    }
}

/// How a remote url is tracked: the plugin name parsed from a well-known
/// hosting url — or the fallback (the directory name) when the url has
/// another shape — and whether the url is an ssh remote, which marks the
/// plugin private.
pub fn parse_plugin_origin(url: &str, fallback_name: &str) -> (r: (String, bool))
    ensures
        r.0@ == spec_origin_name(url@, fallback_name@),
        r.1 == spec_starts_with(url@, "git@"@),
{
    let https_prefix = "https://github.com/";
    let ssh_prefix = "git@github.com:";
    let name = if str_starts_with(url, https_prefix) {
        proof {
            reveal_strlit("https://github.com/");
        }
        let rest = url.substring_char(https_prefix.unicode_len(), url.unicode_len());
        String::from_str(strip_dot_git(rest))
    } else if str_starts_with(url, ssh_prefix) {
        proof {
            reveal_strlit("git@github.com:");
        }
        let rest = url.substring_char(ssh_prefix.unicode_len(), url.unicode_len());
        String::from_str(strip_dot_git(rest))
    } else {
        String::from_str(fallback_name)
    };
    let private = str_starts_with(url, "git@");
    (name, private)
}

/// How due a tracked item's next update is.
#[derive(Clone, Copy, Debug, PartialEq, Eq, Structural)]
pub enum UpdateStatus {
    /// More than a day until the next update.
    Current,
    /// Within the last day before the next update.
    UpdateSoon,
    /// The update interval has passed.
    UpdateNeeded,
}

/// The classification of an item last updated at `last_update`, due again
/// `threshold` seconds later, seen at `now` (all in seconds).
pub open spec fn spec_update_status(last_update: int, threshold: int, now: int) -> UpdateStatus {
    let until = last_update + threshold - now;
    if until > 86400 {
        UpdateStatus::Current
    } else if until > 0 {
        UpdateStatus::UpdateSoon
    } else {
        UpdateStatus::UpdateNeeded
    }
}

/// Classify how due an update is.
pub fn classify_update(last_update: u64, threshold: u64, now: u64) -> (r: UpdateStatus)
    ensures
        r == spec_update_status(last_update as int, threshold as int, now as int),
{
    let until: i128 = last_update as i128 + threshold as i128 - now as i128;
    if until > 86400 {
        UpdateStatus::Current
    } else if until > 0 {
        UpdateStatus::UpdateSoon
    } else {
        UpdateStatus::UpdateNeeded
    }
}

/// Relies on std::time::SystemTime::now: seconds since the Unix epoch, 0 when
/// the clock reads earlier than the epoch.
#[verifier::external_body]
pub fn now_unix_seconds() -> u64 {
    std::time::SystemTime::now().duration_since(std::time::UNIX_EPOCH).map(
        |d| d.as_secs(),
    ).unwrap_or(0)
}

/// One tracked plugin.
#[derive(Debug, Clone)]
pub struct PluginInfo {
    pub name: String,
    pub url: String,
    pub private: bool,
    pub flags: Option<String>,
    pub installed_at: u64,
    pub last_updated: u64,
}

impl PluginInfo {
    /// A plugin recorded as installed now; its two timestamps start equal.
    pub fn new(name: String, url: String, private: bool, flags: Option<String>) -> (r: PluginInfo)
        ensures
            r.name == name,
            r.url == url,
            r.private == private,
            r.flags == flags,
            r.installed_at == r.last_updated,
    {
        let now = now_unix_seconds();
        PluginInfo { name, url, private, flags, installed_at: now, last_updated: now }
    }
}

/// The in-memory plugin inventory, kept in insertion order.
pub struct PluginList {
    plugins: Vec<PluginInfo>,
    file_path: String,
}

impl View for PluginList {
    type V = Seq<PluginInfo>;

    closed spec fn view(&self) -> Seq<PluginInfo> {
        self.plugins@
    }
}

/// Whether some entry of `s` is tracked under `name`.
pub open spec fn contains_name(s: Seq<PluginInfo>, name: Seq<char>) -> bool {
    exists|i: int| 0 <= i < s.len() && s[i].name@ == name
}

/// `i` is the position of the first entry of `s` tracked under `name`.
pub open spec fn first_match_at(s: Seq<PluginInfo>, name: Seq<char>, i: int) -> bool {
    &&& 0 <= i < s.len()
    &&& s[i].name@ == name
    &&& forall|j: int| 0 <= j < i ==> s[j].name@ != name
}

impl PluginList {
    /// Where this inventory is persisted.
    pub closed spec fn spec_file_path(&self) -> Seq<char> {
        self.file_path@
    }

    /// An empty inventory persisted at `file_path`.
    pub fn new(file_path: String) -> (r: PluginList)
        ensures
            r@ == Seq::<PluginInfo>::empty(),
            r.spec_file_path() == file_path@,
    {
        PluginList { plugins: Vec::new(), file_path }
    }

    /// The path this inventory is persisted at.
    pub fn file_path(&self) -> (r: &str)
        ensures
            r@ == self.spec_file_path(),
    {
        self.file_path.as_str()
    }

    /// Track one more plugin, at the end of the inventory.
    pub fn add(&mut self, plugin: PluginInfo)
        ensures
            final(self)@ == old(self)@.push(plugin),
            final(self).spec_file_path() == old(self).spec_file_path(),
    {
        self.plugins.push(plugin);
    }

    /// Stop tracking the first plugin of that name and hand it back; `None`
    /// (and no change) when none is tracked under the name.
    pub fn remove(&mut self, name: &str) -> (r: Option<PluginInfo>)
        ensures
            final(self).spec_file_path() == old(self).spec_file_path(),
            match r {
                Some(p) => exists|i: int|
                    {
                        &&& #[trigger] first_match_at(old(self)@, name@, i)
                        &&& p == old(self)@[i]
                        &&& final(self)@ == old(self)@.remove(i)
                    },
                None => {
                    &&& !contains_name(old(self)@, name@)
                    &&& final(self)@ == old(self)@
                },
            },
    {
        let needle = String::from_str(name);
        let n = self.plugins.len();
        let mut i: usize = 0;
        while i < n
            invariant
                i <= n,
                n == self.plugins@.len(),
                needle@ == name@,
                self.plugins@ == old(self).plugins@,
                self.file_path@ == old(self).file_path@,
                forall|j: int| 0 <= j < i ==> self.plugins@[j].name@ != name@,
            decreases n - i,
        {
            if self.plugins[i].name == needle {
                proof {
                    assert(first_match_at(old(self)@, name@, i as int));
                }
                let p = self.plugins.remove(i);
                return Some(p);
            }
            i = i + 1;
        }
        None
    }

    /// The first plugin tracked under `name`, if any.
    pub fn get(&self, name: &str) -> (r: Option<&PluginInfo>)
        ensures
            match r {
                Some(p) => exists|i: int|
                    {
                        &&& #[trigger] first_match_at(self@, name@, i)
                        &&& *p == self@[i]
                    },
                None => !contains_name(self@, name@),
            },
    {
        let needle = String::from_str(name);
        let n = self.plugins.len();
        let mut i: usize = 0;
        while i < n
            invariant
                i <= n,
                n == self.plugins@.len(),
                needle@ == name@,
                forall|j: int| 0 <= j < i ==> self.plugins@[j].name@ != name@,
            decreases n - i,
        {
            if self.plugins[i].name == needle {
                proof {
                    assert(first_match_at(self@, name@, i as int));
                }
                return Some(&self.plugins[i]);
            }
            i = i + 1;
        }
        None
    }

    /// Every tracked plugin, in insertion order.
    pub fn list(&self) -> (r: &Vec<PluginInfo>)
        ensures
            r@ == self@,
    {
        &self.plugins
    }

    /// Record that the first plugin tracked under `name` was synchronized at
    /// `timestamp`; no change when none is tracked under the name.
    pub fn update_timestamp(&mut self, name: &str, timestamp: u64)
        ensures
            final(self).spec_file_path() == old(self).spec_file_path(),
            !contains_name(old(self)@, name@) ==> final(self)@ == old(self)@,
            contains_name(old(self)@, name@) ==> exists|i: int|
                {
                    &&& #[trigger] first_match_at(old(self)@, name@, i)
                    &&& final(self)@ == old(self)@.update(
                        i,
                        PluginInfo { last_updated: timestamp, ..old(self)@[i] },
                    )
                },
    {
        let needle = String::from_str(name);
        let n = self.plugins.len();
        let mut i: usize = 0;
        while i < n
            invariant
                i <= n,
                n == self.plugins@.len(),
                needle@ == name@,
                self.plugins@ == old(self).plugins@,
                self.file_path@ == old(self).file_path@,
                forall|j: int| 0 <= j < i ==> self.plugins@[j].name@ != name@,
            decreases n - i,
        {
            if self.plugins[i].name == needle {
                proof {
                    assert(first_match_at(old(self)@, name@, i as int));
                }
                self.plugins[i].last_updated = timestamp;
                return ;
            }
            i = i + 1;
        }
    }
}

} // verus!
