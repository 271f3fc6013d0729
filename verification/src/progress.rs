//! Live status board for one batch run: one line per repository, a fixed set
//! of repositories chosen at construction, and status transitions that only
//! move forward. Rendering always recomputes the whole panel from the current
//! entries, never a delta.

use vstd::prelude::*;
use std::io::Write;
use crate::config::spec_last_segment;
use crate::config::last_segment;

verus! {

/// Where one repository stands in its update.
#[derive(Debug, Clone)]
pub enum RepoStatus {
    Pending,
    Fetching,
    Merging,
    Success,
    Failed(String),
}

impl RepoStatus {
    /// How far along the update is. `Success` and `Failed` are both terminal,
    /// so neither can replace the other.
    pub open spec fn rank(&self) -> int {
        match self {
            RepoStatus::Pending => 0,
            RepoStatus::Merging => 2,
            RepoStatus::Fetching => 1,
            RepoStatus::Success => 3,
            RepoStatus::Failed(_) => 3,
        }
    }

    /// The rank of this status, for the forward-only check.
    pub fn rank_value(&self) -> (r: u8)
        ensures
            r as int == self.rank(),
    {
        match self {
            RepoStatus::Pending => 0,
            RepoStatus::Fetching => 1,
            RepoStatus::Merging => 2,
            RepoStatus::Success => 3,
            RepoStatus::Failed(_) => 3,
        }
    }

    /// The marker a panel line starts with.
    pub open spec fn spec_marker(&self) -> Seq<char> {
        match self {
            RepoStatus::Pending => "[ ]"@,
            RepoStatus::Fetching => "[>]"@,
            RepoStatus::Merging => "[m]"@,
            RepoStatus::Success => "[+]"@,
            RepoStatus::Failed(_) => "[x]"@,
        }
    }

    /// The marker a panel line starts with.
    pub fn marker(&self) -> (r: &'static str)
        ensures
            r@ == self.spec_marker(),
    {
        match self {
            RepoStatus::Pending => "[ ]",
            RepoStatus::Fetching => "[>]",
            RepoStatus::Merging => "[m]",
            RepoStatus::Success => "[+]",
            RepoStatus::Failed(_) => "[x]",
        }
    }
}

/// One repository's line on the board.
#[derive(Debug, Clone)]
pub struct BoardEntry {
    pub name: String,
    pub status: RepoStatus,
}

/// The text of one panel line: marker, name, and the failure reason inline
/// when the repository failed.
pub open spec fn spec_line(e: BoardEntry) -> Seq<char> {
    e.status.spec_marker() + " "@ + e.name@ + match e.status {
        RepoStatus::Failed(err) => " - "@ + err@,
        _ => Seq::<char>::empty(),
    }
}

/// The text of the whole panel: one line per entry, each ended by a newline,
/// in the fixed order the board was built with.
pub open spec fn spec_panel(s: Seq<BoardEntry>) -> Seq<char>
    decreases s.len(),
{
    if s.len() == 0 {
        Seq::<char>::empty()
    } else {
        spec_panel(s.drop_last()) + spec_line(s.last()) + "\n"@
    }
}

/// `s` without its trailing path separators.
pub open spec fn spec_trim_trailing_slashes(s: Seq<char>) -> Seq<char>
    decreases s.len(),
{
    if s.len() > 0 && s[s.len() - 1] == '/' {
        spec_trim_trailing_slashes(s.drop_last())
    } else {
        s
    }
}

/// A prefix of `s` followed only by separators is what trimming leaves.
proof fn lemma_trim_from(s: Seq<char>, end: int)
    requires
        0 <= end <= s.len(),
        end == 0 || s[end - 1] != '/',
        forall|j: int| end <= j < s.len() ==> s[j] == '/',
    ensures
        spec_trim_trailing_slashes(s) == s.subrange(0, end),
    decreases s.len(),
{
    if end == s.len() {
        assert(s.subrange(0, end) =~= s);
    } else {
        assert(s[s.len() - 1] == '/');
        lemma_trim_from(s.drop_last(), end);
        assert(s.drop_last().subrange(0, end) =~= s.subrange(0, end));
    }
}

/// The display name a repository is keyed by on the board: the last segment
/// of its path, with trailing separators not counting; a path with no segment
/// at all is shown as `unknown`.
pub open spec fn spec_display_name(path: Seq<char>) -> Seq<char> {
    let trimmed = spec_trim_trailing_slashes(path);
    if trimmed.len() == 0 {
        "unknown"@
    } else {
        spec_last_segment(trimmed)
    }
}

/// The display name a repository is keyed by on the board.
pub fn display_name(path: &str) -> (r: String)
    ensures
        r@ == spec_display_name(path@),
{
    let len = path.unicode_len();
    let mut end: usize = len;
    loop
        invariant
            end <= len,
            len == path@.len(),
            forall|j: int| end <= j < len ==> path@[j] == '/',
        ensures
            end <= len,
            end == 0 || path@[end - 1] != '/',
            forall|j: int| end <= j < len ==> path@[j] == '/',
        decreases end,
    {
        if end == 0 {
            break ;
        }
        if path.get_char(end - 1) != '/' {
            break ;
        }
        end = end - 1;
    }
    proof {
        lemma_trim_from(path@, end as int);
    }
    if end == 0 {
        String::from_str("unknown")
    } else {
        let trimmed = path.substring_char(0, end);
        String::from_str(last_segment(trimmed))
    }
}

/// The text of one panel line.
pub fn line_text(e: &BoardEntry) -> (r: String)
    ensures
        r@ == spec_line(*e),
{
    let mut s = String::from_str(e.status.marker());
    s.append(" ");
    s.append(e.name.as_str());
    match &e.status {
        RepoStatus::Failed(err) => {
            s.append(" - ");
            s.append(err.as_str());
        },
        _ => {},
    }
    proof {
        assert(s@ =~= spec_line(*e));
    }
    s
}

/// `i` is the position of the first board entry keyed by `name`.
pub open spec fn entry_at(s: Seq<BoardEntry>, name: Seq<char>, i: int) -> bool {
    &&& 0 <= i < s.len()
    &&& s[i].name@ == name
    &&& forall|j: int| 0 <= j < i ==> s[j].name@ != name
}

/// Whether some board entry is keyed by `name`.
pub open spec fn board_contains(s: Seq<BoardEntry>, name: Seq<char>) -> bool {
    exists|i: int| 0 <= i < s.len() && s[i].name@ == name
}

/// The status board of one batch run. The set of entries and their order are
/// fixed at construction.
pub struct ProgressDisplay {
    entries: Vec<BoardEntry>,
}

impl View for ProgressDisplay {
    type V = Seq<BoardEntry>;

    closed spec fn view(&self) -> Seq<BoardEntry> {
        self.entries@
    }
}

impl ProgressDisplay {
    /// A board with one `Pending` line per name, in the given order.
    pub fn new(names: &Vec<String>) -> (r: ProgressDisplay)
        ensures
            r@.len() == names@.len(),
            forall|i: int|
                0 <= i < names@.len() ==> (#[trigger] r@[i]).name == names@[i] && r@[i].status
                    is Pending,
    {
        let mut entries: Vec<BoardEntry> = Vec::new();
        let n = names.len();
        let mut i: usize = 0;
        while i < n
            invariant
                i <= n,
                n == names@.len(),
                entries@.len() == i,
                forall|k: int|
                    0 <= k < i ==> (#[trigger] entries@[k]).name == names@[k] && entries@[k].status
                        is Pending,
            decreases n - i,
        {
            entries.push(BoardEntry { name: names[i].clone(), status: RepoStatus::Pending });
            i = i + 1;
        }
        ProgressDisplay { entries }
    }

    /// Apply one status change to the entry keyed by `name`. The change is
    /// taken only when it moves the entry strictly forward; a missing name, a
    /// repeated status or a step backwards (in particular any transition out
    /// of `Success` or `Failed`) changes nothing. Returns whether the board
    /// changed.
    pub fn update_status(&mut self, name: &str, status: RepoStatus) -> (updated: bool)
        ensures
            !board_contains(old(self)@, name@) ==> final(self)@ == old(self)@ && !updated,
            board_contains(old(self)@, name@) ==> exists|i: int|
                {
                    &&& #[trigger] entry_at(old(self)@, name@, i)
                    &&& (if status.rank() > old(self)@[i].status.rank() {
                        &&& updated
                        &&& final(self)@ == old(self)@.update(
                            i,
                            BoardEntry { name: old(self)@[i].name, status },
                        )
                    } else {
                        &&& !updated
                        &&& final(self)@ == old(self)@
                    })
                },
    {
        let needle = String::from_str(name);
        let n = self.entries.len();
        let mut i: usize = 0;
        while i < n
            invariant
                i <= n,
                n == self.entries@.len(),
                needle@ == name@,
                self.entries@ == old(self).entries@,
                forall|j: int| 0 <= j < i ==> self.entries@[j].name@ != name@,
            decreases n - i,
        {
            if self.entries[i].name == needle {
                proof {
                    assert(entry_at(old(self)@, name@, i as int));
                }
                if status.rank_value() > self.entries[i].status.rank_value() {
                    self.entries[i].status = status;
                    return true;
                } else {
                    return false;
                }
            }
            i = i + 1;
        }
        false
    }

    /// The whole panel, recomputed from the current entries.
    pub fn panel_text(&self) -> (r: String)
        ensures
            r@ == spec_panel(self@),
    {
        let mut s = String::new();
        let n = self.entries.len();
        let mut i: usize = 0;
        while i < n
            invariant
                i <= n,
                n == self@.len(),
                s@ == spec_panel(self@.take(i as int)),
            decreases n - i,
        {
            let line = line_text(&self.entries[i]);
            s.append(line.as_str());
            s.append("\n");
            proof {
                assert(self@.take(i + 1).drop_last() =~= self@.take(i as int));
                assert(self@.take(i + 1).last() == self@[i as int]);
                assert(s@ =~= spec_panel(self@.take(i + 1)));
            }
            i = i + 1;
        }
        proof {
            assert(self@.take(n as int) =~= self@);
        }
        s
    }

    /// How many lines the panel has.
    pub fn len(&self) -> (r: usize)
        ensures
            r == self@.len(),
    {
        self.entries.len()
    }
}

/// A progress board shared by the workers of one batch run, guarded by a
/// lock; every change redraws the whole panel so that interleaved updates
/// never produce a torn frame. (Held behind an opaque struct of this crate
/// because the lock lives outside the verifier; the transitions it applies
/// are the verified ones of `ProgressDisplay`.)
#[verifier::external_body]
pub struct SharedBoard {
    inner: std::sync::Mutex<ProgressDisplay>,
}

/// Relies on std::sync::Mutex::new: puts the board behind a lock.
#[verifier::external_body]
pub fn shared_board_new(board: ProgressDisplay) -> SharedBoard {
    SharedBoard { inner: std::sync::Mutex::new(board) }
}

/// Relies on std::sync::Mutex::lock and std::io::Stderr: prints the whole
/// panel once, so later redraws can repaint it in place. The text printed is
/// what the library's verified `panel_text` renders; it is called inside this
/// trusted body because the read and the write must happen under one lock
/// acquisition, and a lock guard cannot cross this boundary.
#[verifier::external_body]
pub fn board_draw(board: &SharedBoard) {
    if let Ok(guard) = board.inner.lock() {
        let _ = write!(std::io::stderr(), "{}", guard.panel_text());
    }
}

/// Relies on std::sync::Mutex::lock and std::io::Stderr's cursor controls:
/// applies one transition and repaints the whole panel while holding the
/// lock. The transition and the rendering are the library's verified
/// `update_status` and `panel_text`; they run inside this trusted body
/// because the lock must span both — handing the board out and back by value
/// would let a concurrent update fall between the two and a torn or
/// out-of-order frame reach the stream. What is trusted here is only their
/// placement under one lock acquisition; no contract over the shared board's
/// final contents would be sound, since which transitions interleave is the
/// scheduler's choice.
#[verifier::external_body]
pub fn board_report(board: &SharedBoard, name: &str, status: RepoStatus) {
    if let Ok(mut guard) = board.inner.lock() {
        guard.update_status(name, status);
        let _ = write!(std::io::stderr(), "\x1b[{}A\r{}", guard.len(), guard.panel_text());
    }
}

} // verus!
