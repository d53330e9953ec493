//! The user's settings, and the size of the file cache.

use vstd::prelude::*;
use vstd::string::*;

verus! {

/// The settings kept between runs.
#[derive(Clone, Debug)]
pub struct AppSettings {
    /// Where received files are saved.
    pub download_dir: String,
    /// The global shortcut that shows or hides the window.
    pub shortcut: String,
    /// Whether the program starts with the system.
    pub autostart: bool,
}

/// The shortcut used when none is set: `CmdOrCtrl+Shift+V`.
pub fn default_shortcut() -> (r: String)
    ensures
        r@ == "CmdOrCtrl+Shift+V"@,
{
    String::from_str("CmdOrCtrl+Shift+V")
}

/// The settings used when none are stored: downloads go to `download_dir` (the
/// system's download directory, else the home directory, else `.`), the default
/// shortcut, and no autostart.
pub fn default_settings(download_dir: String) -> (r: AppSettings)
    ensures
        r.download_dir == download_dir,
        r.shortcut@ == "CmdOrCtrl+Shift+V"@,
        !r.autostart,
{
    AppSettings { download_dir, shortcut: default_shortcut(), autostart: false }
}

/// The sum of the sizes of the regular files among directory entries.
pub open spec fn cached_bytes(entries: Seq<(bool, u64)>) -> nat
    decreases entries.len(),
{
    if entries.len() == 0 {
        0
    } else {
        cached_bytes(entries.drop_last()) + if entries.last().0 {
            entries.last().1 as nat
        } else {
            0nat
        }
    }
}

proof fn lemma_cached_prefix(s: Seq<(bool, u64)>, k: int)
    requires
        0 <= k <= s.len(),
    ensures
        cached_bytes(s.take(k)) <= cached_bytes(s),
    decreases s.len() - k,
{
    if k < s.len() {
        lemma_cached_prefix(s, k + 1);
        assert(s.take(k + 1).drop_last() =~= s.take(k));
    } else {
        assert(s.take(k) =~= s);
    }
}

/// The size of the cache: the sum of the sizes of the entries that are regular
/// files, given as (is a regular file, size in bytes); `None` where the sum does
/// not fit in a `u64`.
pub fn cache_size_of(entries: &Vec<(bool, u64)>) -> (total: Option<u64>)
    ensures
        match total {
            Some(t) => t == cached_bytes(entries@),
            None => cached_bytes(entries@) > u64::MAX,
        },
{
    let mut total: u64 = 0;
    let mut j: usize = 0;
    while j < entries.len()
        invariant
            j <= entries@.len(),
            total == cached_bytes(entries@.take(j as int)),
        decreases entries@.len() - j,
    {
        proof {
            assert(entries@.take(j + 1).drop_last() =~= entries@.take(j as int));
            lemma_cached_prefix(entries@, j + 1);
        }
        if entries[j].0 {
            match total.checked_add(entries[j].1) {
                Some(t) => total = t,
                None => return None,
            }
        }
        j = j + 1;
    }
    assert(entries@.take(entries@.len() as int) =~= entries@);
    Some(total)
}

} // verus!
