//! Layout of the cache on disk, and the decisions taken about it.
//!
//! Each memoized command lives in a directory named by its digest:
//! `<digest>/meta.json`, `<digest>/stdout` and `<digest>/stderr`. A run
//! writes its files into a temporary directory
//! `<digest>.tmp.<pid>.<timestamp>` and renames it into place; the first
//! rename wins, and temporary directories left behind for more than a day
//! are removed. Paths are handled as text, joined as Unix paths are.

use vstd::prelude::*;

use crate::digest::{is_digest_text, is_hex_lower_char};
use crate::error::MemoError;
use crate::text::{contains_str, contains_text, occurs_at, push_char};
use crate::time::{earlier, total_nanos, Timestamp};

verus! {

/// `comp` appended to `base` as a path component: an absolute `comp`
/// replaces `base`; a separator is put between them unless `base` is empty
/// or already ends with one.
pub open spec fn path_join(base: Seq<char>, comp: Seq<char>) -> Seq<char> {
    if comp.len() > 0 && comp[0] == '/' {
        comp
    } else if base.len() == 0 || base.last() == '/' {
        base + comp
    } else {
        base + seq!['/'] + comp
    }
}

/// Name of the metadata file of a cache entry.
pub open spec fn meta_file() -> Seq<char> {
    seq!['m', 'e', 't', 'a', '.', 'j', 's', 'o', 'n']
}

/// Name of the file that holds the recorded stdout.
pub open spec fn stdout_file() -> Seq<char> {
    seq!['s', 't', 'd', 'o', 'u', 't']
}

/// Name of the file that holds the recorded stderr.
pub open spec fn stderr_file() -> Seq<char> {
    seq!['s', 't', 'd', 'e', 'r', 'r']
}

/// The marker that names temporary directories.
pub open spec fn temp_marker() -> Seq<char> {
    seq!['.', 't', 'm', 'p', '.']
}

/// The three files of the cache entry held in `dir`: metadata, stdout, stderr.
pub open spec fn entry_files(dir: Seq<char>) -> (Seq<char>, Seq<char>, Seq<char>) {
    (path_join(dir, meta_file()), path_join(dir, stdout_file()), path_join(dir, stderr_file()))
}

/// Decimal text of an integer, with a leading `-` when it is negative.
pub open spec fn decimal(n: int) -> Seq<char> {
    if n < 0 {
        seq!['-'] + digits(-n)
    } else {
        digits(n)
    }
}

/// Decimal digits of a natural number, without leading zeros.
pub open spec fn digits(n: int) -> Seq<char>
    decreases n,
{
    if n < 10 {
        seq![(48 + n) as char]
    } else {
        digits(n / 10).push((48 + n % 10) as char)
    }
}

/// Name of the temporary directory in which a process records an entry.
pub open spec fn temp_dir_name_of(digest: Seq<char>, pid: u32, nanos: i64) -> Seq<char> {
    digest + temp_marker() + decimal(pid as int) + seq!['.'] + decimal(nanos as int)
}

/// Whether a directory name is that of a temporary directory.
pub open spec fn is_temp_name(name: Seq<char>) -> bool {
    contains_text(name, temp_marker())
}

/// Cache directory chosen from `$XDG_CACHE_HOME` and the home directory.
pub open spec fn cache_dir_of(xdg: Option<Seq<char>>, home: Option<Seq<char>>) -> Option<Seq<char>> {
    match xdg {
        Some(x) => Some(path_join(x, seq!['m', 'e', 'm', 'o'])),
        None => match home {
            Some(h) => Some(path_join(path_join(h, seq!['.', 'c', 'a', 'c', 'h', 'e']), seq!['m', 'e', 'm', 'o'])),
            None => None,
        },
    }
}

/// How long a temporary directory may stay before it counts as orphaned.
pub open spec fn stale_after_secs() -> int {
    86400
}

/// The time before which temporary directories count as orphaned, one day
/// before `now`; `None` when that time cannot be represented.
pub open spec fn cutoff_of(now: Timestamp) -> Option<Timestamp> {
    if now.secs - stale_after_secs() >= i64::MIN {
        Some(Timestamp { secs: (now.secs - stale_after_secs()) as i64, nanos: now.nanos })
    } else {
        None
    }
}

/// Whether a cache directory entry is an orphaned temporary directory.
pub open spec fn is_orphaned_temp(
    is_dir: bool,
    name: Option<&str>,
    cutoff: Option<Timestamp>,
    modified: Option<Timestamp>,
) -> bool {
    &&& is_dir
    &&& name matches Some(n) && is_temp_name(n@)
    &&& cutoff matches Some(c) && modified matches Some(m) && earlier(m, c)
}

/// Appends the decimal digits of `n` to `s`, most significant first.
fn push_digits(s: &mut String, n: u64)
    ensures
        final(s)@ == old(s)@ + digits(n as int),
    decreases n,
{
    if n >= 10 {
        push_digits(s, n / 10);
    }
    let d: u8 = (n % 10) as u8;
    push_char(s, (48u8 + d) as char);
    proof {
        if n < 10 {
            assert(digits(n as int) =~= seq![(48 + n) as char]);
        }
    }
}

/// Decimal text of `n`, as `i64::to_string` writes it.
fn decimal_text(n: i64) -> (res: String)
    ensures
        res@ == decimal(n as int),
{
    let mut res = String::new();
    if n < 0 {
        push_char(&mut res, '-');
        let magnitude: u64 = (-(n as i128)) as u64;
        push_digits(&mut res, magnitude);
    } else {
        push_digits(&mut res, n as u64);
    }
    res
}

/// Joins `comp` onto `base` as a path component.
pub fn join_path(base: &str, comp: &str) -> (res: String)
    ensures
        res@ == path_join(base@, comp@),
{
    let m = comp.unicode_len();
    if m > 0 && comp.get_char(0) == '/' {
        return String::from_str(comp);
    }
    let n = base.unicode_len();
    let mut res = String::from_str(base);
    if n > 0 && base.get_char(n - 1) != '/' {
        let sep = "/";
        proof {
            reveal_strlit("/");
        }
        res.append(sep);
    }
    res.append(comp);
    res
}

/// Get paths to the three cache files within a digest directory.
pub fn get_cache_paths_in_dir(dir: &str) -> (res: (String, String, String))
    ensures
        (res.0@, res.1@, res.2@) == entry_files(dir@),
{
    proof {
        reveal_strlit("meta.json");
        reveal_strlit("stdout");
        reveal_strlit("stderr");
    }
    let json_path = join_path(dir, "meta.json");
    let out_path = join_path(dir, "stdout");
    let err_path = join_path(dir, "stderr");
    (json_path, out_path, err_path)
}

/// Get paths to the cache files for a digest.
pub fn get_cache_paths(cache_dir: &str, digest: &str) -> (res: (String, String, String))
    ensures
        (res.0@, res.1@, res.2@) == entry_files(path_join(cache_dir@, digest@)),
{
    let digest_dir = join_path(cache_dir, digest);
    get_cache_paths_in_dir(digest_dir.as_str())
}

/// The cache directory: `$XDG_CACHE_HOME/memo` when that variable is set,
/// else `~/.cache/memo`; `HomeNotFound` when neither is known.
pub fn cache_dir_from(xdg: Option<String>, home: Option<String>) -> (res: Result<String, MemoError>)
    ensures
        match cache_dir_of(xdg.deep_view(), home.deep_view()) {
            Some(d) => res matches Ok(s) && s@ == d,
            None => res matches Err(e) && e is HomeNotFound,
        },
{
    proof {
        reveal_strlit("memo");
        reveal_strlit(".cache");
    }
    match xdg {
        Some(x) => Ok(join_path(x.as_str(), "memo")),
        None => match home {
            Some(h) => {
                let base = join_path(h.as_str(), ".cache");
                Ok(join_path(base.as_str(), "memo"))
            },
            None => Err(MemoError::HomeNotFound),
        },
    }
}

/// Whether memoization is disabled, given the value of the variable that
/// controls it: only the value `1` disables it.
pub fn is_disabled_value(value: &Option<String>) -> (res: bool)
    ensures
        res == (value matches Some(v) && v@ == seq!['1']),
{
    match value {
        Some(v) => {
            proof {
                reveal_strlit("1");
            }
            let one = String::from_str("1");
            assert(one@ =~= seq!['1']);
            *v == one
        },
        None => false,
    }
}

/// The nanoseconds that name a temporary directory started at `now`: those
/// since the epoch, or 0 where they do not fit in an `i64`.
pub fn temp_dir_nanos(now: Timestamp) -> (res: i64)
    ensures
        res == if i64::MIN <= total_nanos(now) <= i64::MAX {
            total_nanos(now)
        } else {
            0
        },
{
    match now.nanos_since_epoch() {
        Some(n) => n,
        None => 0,
    }
}

/// Name of the temporary directory in which process `pid` records the entry
/// for `digest`, started at `nanos` nanoseconds after the epoch.
pub fn temp_dir_name(digest: &str, pid: u32, nanos: i64) -> (res: String)
    ensures
        res@ == temp_dir_name_of(digest@, pid, nanos),
{
    proof {
        reveal_strlit(".tmp.");
        reveal_strlit(".");
    }
    let mut res = String::from_str(digest);
    res.append(".tmp.");
    let p = decimal_text(pid as i64);
    res.append(p.as_str());
    res.append(".");
    let t = decimal_text(nanos);
    res.append(t.as_str());
    res
}

/// Whether a directory name is that of a temporary directory.
pub fn is_temp_dir_name(name: &str) -> (res: bool)
    ensures
        res == is_temp_name(name@),
{
    proof {
        reveal_strlit(".tmp.");
    }
    assert(".tmp."@ =~= temp_marker());
    contains_str(name, ".tmp.")
}

/// The time before which temporary directories count as orphaned.
pub fn cleanup_cutoff(now: Timestamp) -> (res: Option<Timestamp>)
    ensures
        res == cutoff_of(now),
{
    if now.secs >= i64::MIN + 86400 {
        Some(Timestamp { secs: now.secs - 86400, nanos: now.nanos })
    } else {
        None
    }
}

/// Whether an entry of the cache directory is an orphaned temporary
/// directory to remove: a directory whose name (when it has one as text)
/// marks it as temporary and whose modification time is known and earlier
/// than the cutoff.
pub fn should_remove_temp_dir(
    is_dir: bool,
    name: Option<&str>,
    cutoff: Option<Timestamp>,
    modified: Option<Timestamp>,
) -> (res: bool)
    ensures
        res == is_orphaned_temp(is_dir, name, cutoff, modified),
{
    if !is_dir {
        return false;
    }
    let n = match name {
        Some(n) => n,
        None => return false,
    };
    if !is_temp_dir_name(n) {
        return false;
    }
    match (cutoff, modified) {
        (Some(c), Some(m)) => m.is_before(&c),
        _ => false,
    }
}

/// How the rename of a temporary directory into place went.
#[derive(Clone, Copy, Debug, PartialEq, Eq, Structural)]
pub enum RenameOutcome {
    /// The directory was renamed into place.
    Renamed,
    /// The target exists already.
    AlreadyExists,
    /// The target exists and is a directory that is not empty.
    DirectoryNotEmpty,
    /// Any other failure.
    Failed,
}

/// A temporary directory for writing cache files before the atomic commit.
pub struct TempCacheDir {
    /// Path to the temporary directory.
    pub path: String,
    /// Whether the directory has been committed (it is then not removed).
    committed: bool,
}

impl TempCacheDir {
    /// Whether the directory was renamed into place.
    pub closed spec fn spec_committed(&self) -> bool {
        self.committed
    }

    /// The directory's path as text.
    pub closed spec fn dir(&self) -> Seq<char> {
        self.path@
    }

    /// A temporary directory for `digest` under `cache_dir`, named
    /// `<digest>.tmp.<pid>.<nanos>`, not committed.
    pub fn new(cache_dir: &str, digest: &str, pid: u32, nanos: i64) -> (res: TempCacheDir)
        ensures
            res.dir() == path_join(cache_dir@, temp_dir_name_of(digest@, pid, nanos)),
            !res.spec_committed(),
    {
        let name = temp_dir_name(digest, pid, nanos);
        TempCacheDir { path: join_path(cache_dir, name.as_str()), committed: false }
    }

    /// Path to the temporary directory.
    pub fn path(&self) -> (res: &String)
        ensures
            res@ == self.dir(),
    {
        &self.path
    }

    /// Whether the directory was renamed into place.
    pub fn is_committed(&self) -> (res: bool)
        ensures
            res == self.spec_committed(),
    {
        self.committed
    }

    /// Get paths to the cache files within this temp directory.
    pub fn get_paths(&self) -> (res: (String, String, String))
        ensures
            (res.0@, res.1@, res.2@) == entry_files(self.dir()),
    {
        get_cache_paths_in_dir(self.path.as_str())
    }

    /// Records how the rename into place went: `Some(true)` when this process
    /// won the race and the directory is now committed, `Some(false)` when
    /// another process had already committed an entry for the digest, and
    /// `None` for any other failure, which the caller reports.
    pub fn commit_outcome(&mut self, outcome: RenameOutcome) -> (res: Option<bool>)
        ensures
            final(self).dir() == old(self).dir(),
            final(self).spec_committed() == (old(self).spec_committed() || outcome == RenameOutcome::Renamed),
            res == match outcome {
                RenameOutcome::Renamed => Some(true),
                RenameOutcome::AlreadyExists => Some(false),
                RenameOutcome::DirectoryNotEmpty => Some(false),
                RenameOutcome::Failed => None::<bool>,
            },
    {
        match outcome {
            RenameOutcome::Renamed => {
                self.committed = true;
                Some(true)
            },
            RenameOutcome::AlreadyExists => Some(false),
            RenameOutcome::DirectoryNotEmpty => Some(false),
            RenameOutcome::Failed => None,
        }
    }
}

} // verus!

verus! {

/// A temporary directory's name is always recognized as temporary, so a
/// crashed run's directory is eventually cleaned up.
pub proof fn lemma_temp_dir_name_is_temp(digest: Seq<char>, pid: u32, nanos: i64)
    ensures
        is_temp_name(temp_dir_name_of(digest, pid, nanos)),
{
    let name = temp_dir_name_of(digest, pid, nanos);
    let i = digest.len() as int;
    assert(name.subrange(i, i + 5) =~= temp_marker());
    assert(occurs_at(name, temp_marker(), i));
}

/// A digest never looks like a temporary directory's name.
pub proof fn lemma_digest_is_not_temp(d: Seq<char>)
    requires
        is_digest_text(d),
    ensures
        !is_temp_name(d),
{
    if is_temp_name(d) {
        let i = choose|i: int| occurs_at(d, temp_marker(), i);
        assert(d.subrange(i, i + 5)[0] == '.');
        assert(d[i] == '.');
        assert(is_hex_lower_char(d[i]));
    }
}

/// Cleaning up orphaned temporary directories never removes a committed
/// cache entry, whatever its age.
pub proof fn lemma_cleanup_keeps_entries(
    d: &str,
    is_dir: bool,
    cutoff: Option<Timestamp>,
    modified: Option<Timestamp>,
)
    requires
        is_digest_text(d@),
    ensures
        !is_orphaned_temp(is_dir, Some(d), cutoff, modified),
{
    lemma_digest_is_not_temp(d@);
}

/// The metadata, stdout and stderr files of an entry are three different
/// paths.
pub proof fn lemma_entry_files_distinct(dir: Seq<char>)
    ensures
        entry_files(dir).0 != entry_files(dir).1,
        entry_files(dir).0 != entry_files(dir).2,
        entry_files(dir).1 != entry_files(dir).2,
{
    let (m, o, e) = entry_files(dir);
    let base = if dir.len() == 0 || dir.last() == '/' { dir } else { dir + seq!['/'] };
    assert(m =~= base + meta_file());
    assert(o =~= base + stdout_file());
    assert(e =~= base + stderr_file());
    assert(m.len() != o.len());
    assert(m.len() != e.len());
    assert(o[base.len() as int + 3] == 'o');
    assert(e[base.len() as int + 3] == 'e');
}

} // verus!
