//! The download history: a list of past downloads, newest last, bounded in
//! length, kept in a JSON file in the user's home directory.

use vstd::prelude::*;

verus! {

/// Where a download stands.
#[derive(Clone, Copy, Debug, PartialEq, Eq, Structural)]
pub enum DownloadStatus {
    Downloading,
    Paused,
    Completed,
    Failed,
}

/// One remembered download, identified by its aria2 GID.
#[derive(Debug, Clone)]
pub struct DownloadHistoryEntry {
    pub gid: String,
    pub name: String,
    pub status: DownloadStatus,
}

/// The history never holds more entries than this.
pub const HISTORY_LIMIT: usize = 100;

/// The last `n` elements of `s` (all of `s` when it is shorter).
pub open spec fn most_recent(s: Seq<DownloadHistoryEntry>, n: nat) -> Seq<DownloadHistoryEntry> {
    if s.len() > n {
        s.subrange(s.len() - n, s.len() as int)
    } else {
        s
    }
}

/// `entry` with its status replaced.
pub open spec fn with_status(
    entry: DownloadHistoryEntry,
    status: DownloadStatus,
) -> DownloadHistoryEntry {
    DownloadHistoryEntry { gid: entry.gid, name: entry.name, status: status }
}

/// Some entry of `s` has the GID `gid`.
pub open spec fn has_gid(s: Seq<DownloadHistoryEntry>, gid: Seq<char>) -> bool {
    exists|i: int| 0 <= i < s.len() && #[trigger] s[i].gid@ == gid
}

/// `i` is the position of the first entry of `s` with the GID `gid`.
pub open spec fn is_first_with_gid(s: Seq<DownloadHistoryEntry>, gid: Seq<char>, i: int) -> bool {
    &&& 0 <= i < s.len()
    &&& s[i].gid@ == gid
    &&& forall|j: int| 0 <= j < i ==> #[trigger] s[j].gid@ != gid
}

/// The position of the first entry of `s` with the GID `gid`.
pub open spec fn first_with_gid(s: Seq<DownloadHistoryEntry>, gid: Seq<char>) -> int {
    choose|i: int| is_first_with_gid(s, gid, i)
}

/// `s` with the status of its first entry of GID `gid` set to `status`;
/// `s` itself when no entry has that GID.
pub open spec fn status_updated(
    s: Seq<DownloadHistoryEntry>,
    gid: Seq<char>,
    status: DownloadStatus,
) -> Seq<DownloadHistoryEntry> {
    if has_gid(s, gid) {
        let i = first_with_gid(s, gid);
        s.update(i, with_status(s[i], status))
    } else {
        s
    }
}

proof fn lemma_first_with_gid(s: Seq<DownloadHistoryEntry>, gid: Seq<char>, i: int)
    requires
        is_first_with_gid(s, gid, i),
    ensures
        has_gid(s, gid),
        first_with_gid(s, gid) == i,
{
    let k = first_with_gid(s, gid);
    assert(is_first_with_gid(s, gid, k));
    if k < i {
        assert(s[k].gid@ != gid);
    }
    if i < k {
        assert(s[i].gid@ != gid);
    }
}

/// Knows where the history file lives.
pub struct HistoryManager {
    history_file: String,
}

/// The name of the history file.
pub open spec fn history_file_name() -> Seq<char> {
    ".tui_torrent_history.json"@
}

/// A name that `PathBuf::push` appends as one last component.
pub open spec fn is_plain_file_name(name: Seq<char>) -> bool {
    &&& name.len() > 0
    &&& name != "."@
    &&& name != ".."@
    &&& forall|i: int|
        0 <= i < name.len() ==> #[trigger] name[i] != '/' && name[i] != '\\' && name[i] != ':'
}

/// `s` ends with `suffix`.
pub open spec fn ends_with(s: Seq<char>, suffix: Seq<char>) -> bool {
    &&& suffix.len() <= s.len()
    &&& s.subrange(s.len() - suffix.len(), s.len() as int) == suffix
}

/// `path` is `dir` extended by the component `name`: directly after `dir`
/// (when `dir` is empty or already ends in a separator or a drive), or after
/// one path separator.
pub open spec fn is_joined(dir: Seq<char>, name: Seq<char>, path: Seq<char>) -> bool {
    ||| path == dir + name
    ||| path == dir + seq!['/'] + name
    ||| path == dir + seq!['\\'] + name
}

/// `path` is what `PathBuf::push` makes of the directory `dir` and the plain
/// file name `name`: `name` alone when `dir` is empty; `dir` and `name` when
/// `dir` ends in `/`; `dir`, one separator (`/`, or `\` on Windows) and
/// `name` when `dir` ends in anything but `/`, `\` or `:`. After `\` (a
/// separator only on Windows) or `:` (which may end a Windows drive) the
/// separator may be left out.
pub open spec fn is_pushed(dir: Seq<char>, name: Seq<char>, path: Seq<char>) -> bool {
    if dir.len() == 0 {
        path == name
    } else if dir.last() == '/' {
        path == dir + name
    } else if dir.last() == '\\' {
        path == dir + name || path == dir + seq!['/'] + name
    } else if dir.last() == ':' {
        is_joined(dir, name, path)
    } else {
        path == dir + seq!['/'] + name || path == dir + seq!['\\'] + name
    }
}

/// `dir` starts with the Windows verbatim prefix `\\?\`, under which
/// `PathBuf::push` also normalizes the path.
pub open spec fn is_verbatim(dir: Seq<char>) -> bool {
    &&& dir.len() >= 4
    &&& dir.subrange(0, 4) == seq!['\\', '\\', '?', '\\']
}

/// Calls `dirs::home_dir` and renders the path as text (invalid Unicode is
/// replaced). What comes back depends on the environment and the user
/// database, so nothing is promised of it.
#[verifier::external_body]
fn home_dir() -> (home: Option<String>) {
    match dirs::home_dir() {
        Some(path) => Some(path.to_string_lossy().into_owned()),
        None => None,
    }
}

/// Calls `std::path::PathBuf::push` to append the file name `name` to the
/// directory `dir`, and renders the path as text. `push` appends a relative
/// path as a new last component, after a separator where one is needed, so
/// the text ends with `name`. Outside a Windows verbatim prefix (where
/// `push` also normalizes `dir`) it is `dir` and `name`, with one separator
/// between them where `dir` does not already end in one (`is_pushed`):
/// `/` on Unix, `\` on Windows, where `/` also counts as a separator and a
/// bare drive such as `C:` takes none. Which of these applies depends on the
/// platform and is not stated.
#[verifier::external_body]
fn push_file_name(dir: &str, name: &str) -> (path: String)
    requires
        is_plain_file_name(name@),
    ensures
        ends_with(path@, name@),
        !is_verbatim(dir@) ==> is_pushed(dir@, name@, path@),
{
    let mut path = std::path::PathBuf::from(dir);
    path.push(name);
    path.to_string_lossy().into_owned()
}

impl View for HistoryManager {
    type V = Seq<char>;

    /// The path of the history file.
    closed spec fn view(&self) -> Seq<char> {
        self.history_file@
    }
}

impl HistoryManager {
    /// A manager for the history file in the user's home directory, or in
    /// the current directory when there is no home directory.
    pub fn new() -> (manager: Self)
        ensures
            ends_with(manager@, history_file_name()),
    {
        HistoryManager::in_home(home_dir())
    }

    /// A manager for the history file in `home`, or in the current
    /// directory when `home` is `None`.
    pub fn in_home(home: Option<String>) -> (manager: Self)
        ensures
            ends_with(manager@, history_file_name()),
            match home {
                Some(dir) => !is_verbatim(dir@) ==> is_pushed(dir@, history_file_name(), manager@),
                None => manager@ == "./"@ + history_file_name() || manager@ == ".\\"@
                    + history_file_name(),
            },
    {
        let name = ".tui_torrent_history.json";
        proof {
            reveal_strlit(".tui_torrent_history.json");
            reveal_strlit(".");
            reveal_strlit("..");
            assert(name@ != "."@) by {
                assert(name@.len() != "."@.len());
            }
            assert(name@ != ".."@) by {
                assert(name@.len() != ".."@.len());
            }
        }
        let history_file = match home {
            Some(dir) => push_file_name(dir.as_str(), name),
            None => {
                let path = push_file_name(".", name);
                proof {
                    reveal_strlit("./");
                    reveal_strlit(".\\");
                    assert("./"@ =~= "."@ + seq!['/']);
                    assert(".\\"@ =~= "."@ + seq!['\\']);
                }
                path
            },
        };
        HistoryManager { history_file }
    }

    /// The path of the history file.
    pub fn history_file(&self) -> (path: &String)
        ensures
            path@ == self@,
    {
        &self.history_file
    }

    /// Appends `entry` to `history` and keeps only the `HISTORY_LIMIT` most
    /// recent entries.
    pub fn add_download(history: &mut Vec<DownloadHistoryEntry>, entry: DownloadHistoryEntry)
        ensures
            final(history)@ == most_recent(old(history)@.push(entry), HISTORY_LIMIT as nat),
            final(history)@.len() <= HISTORY_LIMIT,
            final(history)@.last() == entry,
    {
        history.push(entry);
        let len = history.len();
        if len > HISTORY_LIMIT {
            let recent = history.split_off(len - HISTORY_LIMIT);
            *history = recent;
        }
    }

    /// Sets the status of the first entry with the GID `gid` and says
    /// whether there was one; `history` is unchanged when there was none.
    pub fn update_download_status(
        history: &mut Vec<DownloadHistoryEntry>,
        gid: &str,
        status: DownloadStatus,
    ) -> (found: bool)
        ensures
            found == has_gid(old(history)@, gid@),
            final(history)@ == status_updated(old(history)@, gid@, status),
    {
        let target = gid.to_owned();
        let mut i: usize = 0;
        while i < history.len()
            invariant
                target@ == gid@,
                history@ == old(history)@,
                i <= history.len(),
                forall|j: int| 0 <= j < i ==> #[trigger] history@[j].gid@ != gid@,
            decreases history.len() - i,
        {
            if history[i].gid == target {
                proof {
                    lemma_first_with_gid(history@, gid@, i as int);
                }
                let mut entry = history.remove(i);
                entry.status = status;
                history.insert(i, entry);
                proof {
                    assert(history@ =~= old(history)@.update(
                        i as int,
                        with_status(old(history)@[i as int], status),
                    ));
                }
                return true;
            }
            i = i + 1;
        }
        false
    }
}

impl Default for HistoryManager {
    fn default() -> (manager: Self)
        ensures
            ends_with(manager@, history_file_name()),
    {
        HistoryManager::new()
    }
}

/// Setting the same status of the same download twice changes nothing the
/// second time.
pub proof fn lemma_status_update_idempotent(
    s: Seq<DownloadHistoryEntry>,
    gid: Seq<char>,
    status: DownloadStatus,
)
    ensures
        status_updated(status_updated(s, gid, status), gid, status) == status_updated(
            s,
            gid,
            status,
        ),
{
    if has_gid(s, gid) {
        let i = first_with_gid(s, gid);
        let w = choose|w: int| 0 <= w < s.len() && #[trigger] s[w].gid@ == gid;
        lemma_first_exists(s, gid, w);
        let t = status_updated(s, gid, status);
        assert(is_first_with_gid(t, gid, i)) by {
            assert forall|j: int| 0 <= j < i implies #[trigger] t[j].gid@ != gid by {
                assert(t[j] == s[j]);
            }
        }
        lemma_first_with_gid(t, gid, i);
        assert(t.update(i, with_status(t[i], status)) =~= t);
    }
}

proof fn lemma_first_exists(s: Seq<DownloadHistoryEntry>, gid: Seq<char>, w: int)
    requires
        0 <= w < s.len(),
        s[w].gid@ == gid,
    ensures
        is_first_with_gid(s, gid, first_with_gid(s, gid)),
    decreases w,
{
    if exists|j: int| 0 <= j < w && #[trigger] s[j].gid@ == gid {
        let j = choose|j: int| 0 <= j < w && #[trigger] s[j].gid@ == gid;
        lemma_first_exists(s, gid, j);
    } else {
        assert(is_first_with_gid(s, gid, w));
    }
}

/// Updating a status keeps every entry's GID and name, and the length.
pub proof fn lemma_status_update_keeps_downloads(
    s: Seq<DownloadHistoryEntry>,
    gid: Seq<char>,
    status: DownloadStatus,
)
    ensures
        status_updated(s, gid, status).len() == s.len(),
        forall|j: int|
            0 <= j < s.len() ==> #[trigger] status_updated(s, gid, status)[j].gid == s[j].gid
                && status_updated(s, gid, status)[j].name == s[j].name,
{
    if has_gid(s, gid) {
        let w = choose|w: int| 0 <= w < s.len() && #[trigger] s[w].gid@ == gid;
        lemma_first_exists(s, gid, w);
    }
}

/// A download that was just added is in the history, so a status update
/// for its GID finds it.
pub proof fn lemma_added_download_is_found(
    s: Seq<DownloadHistoryEntry>,
    entry: DownloadHistoryEntry,
)
    ensures
        has_gid(most_recent(s.push(entry), HISTORY_LIMIT as nat), entry.gid@),
{
    let t = most_recent(s.push(entry), HISTORY_LIMIT as nat);
    assert(t[t.len() - 1] == entry);
}

} // verus!
