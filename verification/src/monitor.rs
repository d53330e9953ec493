//! The clipboard monitor as a state machine.  Every poll the caller reads the
//! clipboard and the shared flags, and hands them to the steps below in order:
//! `gate`, `check_change`, `on_files` (with `after_file_broadcast`), `on_text`,
//! `finish`.  Each step says what to do next; the caller performs the I/O.

use vstd::prelude::*;
use vstd::string::*;
use crate::codec::{hash_strings, hash_text, lowercase, spec_hash_strings, spec_hash_text, spec_lowercase};
use crate::text::{chars_of, replace_char, replace_chars};

verus! {

/// Milliseconds between two polls of the clipboard.
pub const POLL_INTERVAL_MS: u64 = 200;

/// How many polls in a row may fail to read a change before it is given up.
pub const MAX_RETRIES: u32 = 5;

/// Seconds after which a set "writing the clipboard" flag is taken as stuck.
pub const WRITING_TIMEOUT_SECS: u64 = 10;

/// The lower-cased views of a list of paths.
pub open spec fn lowered(paths: Seq<String>) -> Seq<Seq<char>> {
    paths.map_values(|p: String| spec_lowercase(p@))
}

/// The hash by which a list of file paths is recognised: that of the list of the
/// lower-cased paths.
pub open spec fn paths_key(paths: Seq<String>) -> u64 {
    spec_hash_strings(lowered(paths))
}

/// Hash of a list of file paths, case-insensitively.
pub fn hash_paths(paths: &Vec<String>) -> (h: u64)
    ensures
        h == paths_key(paths@),
{
    let mut lower: Vec<String> = Vec::new();
    let mut j: usize = 0;
    while j < paths.len()
        invariant
            j <= paths@.len(),
            lower@.len() == j,
            forall|k: int| 0 <= k < j ==> #[trigger] lower@[k]@ == spec_lowercase(paths@[k]@),
        decreases paths@.len() - j,
    {
        let l = lowercase(paths[j].as_str());
        lower.push(l);
        j = j + 1;
    }
    assert(lower@.map_values(|s: String| s@) =~= lowered(paths@));
    hash_strings(&lower)
}

/// A path as compared against the temporary directory: lower-cased, with `/` turned into `\`.
pub open spec fn folded(p: Seq<char>) -> Seq<char> {
    replace_char(spec_lowercase(p), '/', '\\')
}

/// Whether `p` begins with `prefix`.
pub open spec fn has_prefix(p: Seq<char>, prefix: Seq<char>) -> bool {
    prefix.len() <= p.len() && p.subrange(0, prefix.len() as int) == prefix
}

/// Whether a directory name looks like a transfer id: 36 bytes long with four `-`.
pub open spec fn looks_like_transfer_dir(name: &str) -> bool {
    (name.spec_bytes().len() as usize) == 36 && name@.filter(|c: char| c == '-').len() == 4
}

/// Whether a clipboard file is one of this program's own placeholders.
pub open spec fn placeholder_spec(path: &str, temp_dir: &str, canonical: Option<&str>, empty_file_parent: Option<&str>) -> bool {
    ||| has_prefix(folded(path@), folded(temp_dir@))
    ||| (canonical matches Some(c) && has_prefix(folded(c@), folded(temp_dir@)))
    ||| (empty_file_parent matches Some(n) && looks_like_transfer_dir(n))
}

fn folded_chars(p: &str) -> (r: Vec<char>)
    ensures
        r@ == folded(p@),
{
    let l = lowercase(p);
    let cs = chars_of(l.as_str());
    replace_chars(&cs, '/', '\\')
}

fn starts_with_chars(p: &Vec<char>, prefix: &Vec<char>) -> (r: bool)
    ensures
        r == has_prefix(p@, prefix@),
{
    if prefix.len() > p.len() {
        return false;
    }
    let mut k: usize = 0;
    while k < prefix.len()
        invariant
            k <= prefix@.len(),
            prefix@.len() <= p@.len(),
            forall|i: int| 0 <= i < k ==> p@[i] == prefix@[i],
        decreases prefix@.len() - k,
    {
        if p[k] != prefix[k] {
            assert(p@.subrange(0, prefix@.len() as int)[k as int] != prefix@[k as int]);
            return false;
        }
        k = k + 1;
    }
    assert(p@.subrange(0, prefix@.len() as int) =~= prefix@);
    true
}

fn count_dashes(s: &Vec<char>) -> (n: usize)
    ensures
        n == s@.filter(|c: char| c == '-').len(),
{
    let ghost pred = |c: char| c == '-';
    let mut n: usize = 0;
    let mut j: usize = 0;
    while j < s.len()
        invariant
            j <= s@.len(),
            pred == (|c: char| c == '-'),
            n == s@.take(j as int).filter(pred).len(),
            n <= j,
        decreases s@.len() - j,
    {
        reveal_with_fuel(Seq::<_>::filter, 1);
        assert(s@.take(j + 1).drop_last() =~= s@.take(j as int));
        if s[j] == '-' {
            n = n + 1;
        }
        j = j + 1;
    }
    assert(s@.take(s@.len() as int) =~= s@);
    n
}

/// Whether a file found on the clipboard is a placeholder that this program wrote
/// itself: its path, or its canonical path where the file system gave one, lies
/// under the temporary directory `temp_dir` (compared lower-cased, with `/` as `\`);
/// or the file is empty and its parent directory's name (`empty_file_parent`, given
/// by the caller only for an empty file) looks like a transfer id.
pub fn is_placeholder_file(path: &str, temp_dir: &str, canonical: Option<&str>, empty_file_parent: Option<&str>) -> (r: bool)
    ensures
        r == placeholder_spec(path, temp_dir, canonical, empty_file_parent),
{
    let p = folded_chars(path);
    let d = folded_chars(temp_dir);
    if starts_with_chars(&p, &d) {
        return true;
    }
    match canonical {
        Some(c) => {
            let cf = folded_chars(c);
            if starts_with_chars(&cf, &d) {
                return true;
            }
        },
        None => {},
    }
    match empty_file_parent {
        Some(n) => {
            let cs = chars_of(n);
            n.len() == 36 && count_dashes(&cs) == 4
        },
        None => false,
    }
}

/// Whether a poll goes on, and whether it must first clear a stuck "writing" flag.
#[derive(Clone, Copy, Debug, PartialEq, Eq, Structural)]
pub enum Gate {
    Skip,
    Proceed { reset_writing_flag: bool },
}

/// What the caller read to learn whether the clipboard changed.
pub enum ChangeProbe {
    /// The system's change counter (a sequence number or change count).
    Counter(i64),
    /// Where there is no counter: the clipboard text as read now.
    Text(String),
    /// Where there is no counter: reading the text failed.
    TextError,
    /// Where there is no counter: the clipboard could not be opened.
    Unavailable,
}

/// Whether the clipboard changed since the last handled change.
#[derive(Clone, Copy, Debug, PartialEq, Eq, Structural)]
pub enum ChangeCheck {
    /// The counter could not be read; nothing more happens in this poll.
    Skip,
    Unchanged,
    Changed,
}

/// What to do with files found on the clipboard.  Each of these handles the change.
pub enum FilesDecision {
    /// These are the files that this program itself last put on the clipboard.
    PlaceholderEcho,
    /// All files are placeholders of this program.
    OnlyPlaceholders,
    /// New files: the placeholder hash is to be cleared and these paths offered to
    /// the other devices.
    NewFiles(Vec<String>),
    /// The same files as last time.
    Unchanged,
}

/// What the caller got when it read the clipboard text.
pub enum TextRead {
    Text(String),
    /// The clipboard holds no text.
    NotText,
    /// Reading failed; the change is to be retried.
    Failed,
}

/// What to do with the clipboard text.
pub enum TextDecision {
    /// Nothing to send; the change is handled.
    Ignore,
    /// The text is the one last received from another device; the change is handled.
    Echo,
    /// New local text: the placeholder and remote-text hashes are to be cleared and
    /// the text sent to the other devices.
    Broadcast(String),
    /// Nothing could be read; the change is not handled.
    Retry,
}

/// Whether clipboard text `t` is sent to the other devices, given the last text
/// seen and the hash of the text last received from another device (0 for none).
pub open spec fn sends_text(t: Seq<char>, last: Seq<char>, remote_hash: u64) -> bool {
    t.len() != 0 && t != last && !(remote_hash != 0 && spec_hash_text(t) == remote_hash)
}

/// Whether clipboard files are offered to the other devices, given which are
/// placeholders, the hash of the files this program last wrote (0 for none) and
/// the hash of the files last seen.
pub open spec fn offers_files(paths: Seq<String>, marks: Seq<bool>, placeholder_hash: u64, last_hash: u64) -> bool {
    &&& !(placeholder_hash != 0 && paths_key(paths) == placeholder_hash)
    &&& !(forall|i: int| 0 <= i < paths.len() ==> marks[i])
    &&& paths_key(paths) != last_hash
}

/// The state the monitor keeps from one poll to the next.
pub struct MonitorState {
    /// The last clipboard text seen.
    pub last_text: String,
    /// The hash of the last list of clipboard files seen, or 0.
    pub last_file_hash: u64,
    /// The change counter at the last handled change.
    pub last_counter: i64,
    /// Polls in a row in which a change could not be read.
    pub fail_count: u32,
    /// When, in milliseconds of a monotonic clock, the "writing" flag was first seen set.
    pub writing_since_ms: Option<u64>,
}

impl MonitorState {
    /// Whether the retry count is below its limit.
    pub open spec fn wf(&self) -> bool {
        self.fail_count < MAX_RETRIES
    }

    /// The monitor at start, with the change counter read then.
    pub fn new(initial_counter: i64) -> (r: Self)
        ensures
            r.wf(),
            r.last_text@ == Seq::<char>::empty(),
            r.last_file_hash == 0,
            r.last_counter == initial_counter,
            r.fail_count == 0,
            r.writing_since_ms is None,
    {
        MonitorState {
            last_text: String::new(),
            last_file_hash: 0,
            last_counter: initial_counter,
            fail_count: 0,
            writing_since_ms: None,
        }
    }

    /// The start of a poll at `now_ms`, given whether sync is paused and whether the
    /// "writing the clipboard" flag is set.  A paused monitor skips.  While the flag
    /// is set the poll is skipped, until the flag has been seen set for more than
    /// `WRITING_TIMEOUT_SECS` seconds; then it is to be cleared and the poll goes on.
    pub fn gate(&mut self, paused: bool, writing: bool, now_ms: u64) -> (g: Gate)
        requires
            old(self).wf(),
        ensures
            final(self).wf(),
            final(self).last_text == old(self).last_text,
            final(self).last_file_hash == old(self).last_file_hash,
            final(self).last_counter == old(self).last_counter,
            final(self).fail_count == old(self).fail_count,
            paused ==> g == Gate::Skip && final(self).writing_since_ms == old(self).writing_since_ms,
            !paused && !writing ==> g == (Gate::Proceed { reset_writing_flag: false })
                && final(self).writing_since_ms is None,
            !paused && writing ==> match old(self).writing_since_ms {
                None => g == Gate::Skip && final(self).writing_since_ms == Some(now_ms),
                Some(start) => if (if now_ms >= start { now_ms - start } else { 0 }) / 1000 > WRITING_TIMEOUT_SECS {
                    g == (Gate::Proceed { reset_writing_flag: true }) && final(self).writing_since_ms is None
                } else {
                    g == Gate::Skip && final(self).writing_since_ms == Some(start)
                },
            },
            !paused && writing ==> (g, final(self).writing_since_ms) == writing_gate(old(self).writing_since_ms, now_ms),
    {
        if paused {
            return Gate::Skip;
        }
        if writing {
            match self.writing_since_ms {
                Some(start) => {
                    let elapsed_ms = now_ms.saturating_sub(start);
                    if elapsed_ms / 1000 > WRITING_TIMEOUT_SECS {
                        self.writing_since_ms = None;
                        Gate::Proceed { reset_writing_flag: true }
                    } else {
                        Gate::Skip
                    }
                },
                None => {
                    self.writing_since_ms = Some(now_ms);
                    Gate::Skip
                },
            }
        } else {
            self.writing_since_ms = None;
            Gate::Proceed { reset_writing_flag: false }
        }
    }

    /// Whether the clipboard changed: the counter differs from the one at the last
    /// handled change (a negative counter could not be read); without a counter, the
    /// text differs from the last text, or, where the text cannot be read, no files
    /// were seen last.
    pub fn check_change(&self, probe: &ChangeProbe) -> (c: ChangeCheck)
        ensures
            match probe {
                ChangeProbe::Counter(v) => if *v < 0 {
                    c == ChangeCheck::Skip
                } else if *v != self.last_counter {
                    c == ChangeCheck::Changed
                } else {
                    c == ChangeCheck::Unchanged
                },
                ChangeProbe::Text(t) => c == if t@ != self.last_text@ {
                    ChangeCheck::Changed
                } else {
                    ChangeCheck::Unchanged
                },
                ChangeProbe::TextError => c == if self.last_file_hash == 0 {
                    ChangeCheck::Changed
                } else {
                    ChangeCheck::Unchanged
                },
                ChangeProbe::Unavailable => c == ChangeCheck::Unchanged,
            },
    {
        match probe {
            ChangeProbe::Counter(v) => {
                if *v < 0 {
                    ChangeCheck::Skip
                } else if *v != self.last_counter {
                    ChangeCheck::Changed
                } else {
                    ChangeCheck::Unchanged
                }
            },
            ChangeProbe::Text(t) => {
                if *t == self.last_text {
                    ChangeCheck::Unchanged
                } else {
                    ChangeCheck::Changed
                }
            },
            ChangeProbe::TextError => {
                if self.last_file_hash == 0 {
                    ChangeCheck::Changed
                } else {
                    ChangeCheck::Unchanged
                }
            },
            ChangeProbe::Unavailable => ChangeCheck::Unchanged,
        }
    }

    /// Files found on the clipboard, with whether each is a placeholder of this
    /// program, and the hash of the placeholder last written (0 for none).
    /// The last file hash becomes the hash of these paths unless they are the same
    /// files as last time.
    #[verifier::rlimit(40)]
    pub fn on_files(&mut self, paths: &Vec<String>, is_placeholder: &Vec<bool>, placeholder_hash: u64) -> (d: FilesDecision)
        requires
            old(self).wf(),
            paths@.len() == is_placeholder@.len(),
        ensures
            final(self).wf(),
            final(self).last_text == old(self).last_text,
            final(self).last_counter == old(self).last_counter,
            final(self).fail_count == old(self).fail_count,
            final(self).writing_since_ms == old(self).writing_since_ms,
            final(self).last_file_hash == paths_key(paths@),
            (d is NewFiles) == offers_files(paths@, is_placeholder@, placeholder_hash, old(self).last_file_hash),
            d matches FilesDecision::NewFiles(real_paths) ==> {
                &&& forall|i: int| 0 <= i < paths@.len() && !is_placeholder@[i] ==> real_paths@.contains(#[trigger] paths@[i])
                &&& exists|idx: Seq<int>| #[trigger] picks_unmarked(paths@, is_placeholder@, real_paths@, idx)
            },
            ({
                let h = paths_key(paths@);
                if placeholder_hash != 0 && h == placeholder_hash {
                    d is PlaceholderEcho
                } else if forall|i: int| 0 <= i < paths@.len() ==> is_placeholder@[i] {
                    d is OnlyPlaceholders
                } else if h != old(self).last_file_hash {
                    d matches FilesDecision::NewFiles(real_paths) && real_paths@ == kept_paths(paths@, is_placeholder@)
                } else {
                    d is Unchanged
                }
            }),
    {
        let h = hash_paths(paths);
        if placeholder_hash != 0 && h == placeholder_hash {
            self.last_file_hash = h;
            return FilesDecision::PlaceholderEcho;
        }
        let kept = keep_unmarked(paths, is_placeholder);
        if kept.len() == 0 {
            self.last_file_hash = h;
            proof {
                lemma_kept_empty(paths@, is_placeholder@);
            }
            FilesDecision::OnlyPlaceholders
        } else if h != self.last_file_hash {
            self.last_file_hash = h;
            proof {
                lemma_kept_nonempty(paths@, is_placeholder@);
                let idx = kept_indices(paths@, is_placeholder@);
                assert(picks_unmarked(paths@, is_placeholder@, kept@, idx));
                lemma_picks_membership(paths@, is_placeholder@, kept@, idx);
                assert(exists|idx: Seq<int>| #[trigger] picks_unmarked(paths@, is_placeholder@, kept@, idx));
            }
            let d = FilesDecision::NewFiles(kept);
            assert(d matches FilesDecision::NewFiles(real_paths) && real_paths@ == kept_paths(paths@, is_placeholder@));
            d
        } else {
            proof {
                lemma_kept_nonempty(paths@, is_placeholder@);
            }
            FilesDecision::Unchanged
        }
    }

    /// After new files were offered, the text the clipboard then shows (if it
    /// could be read as text) becomes the last text, so that it is not sent as text.
    pub fn after_file_broadcast(&mut self, text: Option<String>)
        ensures
            final(self).last_file_hash == old(self).last_file_hash,
            final(self).last_counter == old(self).last_counter,
            final(self).fail_count == old(self).fail_count,
            final(self).writing_since_ms == old(self).writing_since_ms,
            match text {
                Some(t) => final(self).last_text == t,
                None => final(self).last_text == old(self).last_text,
            },
    {
        match text {
            Some(t) => {
                self.last_text = t;
            },
            None => {},
        }
    }

    /// The clipboard text, and the hash of the text last received from another
    /// device (0 for none).  Empty or unchanged text is ignored; text equal to the
    /// last received one is not sent back; other text is to be sent.
    pub fn on_text(&mut self, read: TextRead, remote_hash: u64) -> (d: TextDecision)
        requires
            old(self).wf(),
        ensures
            final(self).wf(),
            final(self).last_counter == old(self).last_counter,
            final(self).fail_count == old(self).fail_count,
            final(self).writing_since_ms == old(self).writing_since_ms,
            read matches TextRead::Text(t) ==> ((d is Broadcast) == sends_text(t@, old(self).last_text@, remote_hash)),
            !(read is Text) ==> !(d is Broadcast),
            match read {
                TextRead::Text(t) => if t@.len() != 0 && t@ != old(self).last_text@ {
                    if remote_hash != 0 && spec_hash_text(t@) == remote_hash {
                        d is Echo && final(self).last_text == t && final(self).last_file_hash
                            == old(self).last_file_hash
                    } else {
                        d matches TextDecision::Broadcast(s) && s == t && final(self).last_text == t
                            && final(self).last_file_hash == 0
                    }
                } else {
                    d is Ignore && final(self).last_text == old(self).last_text && final(self).last_file_hash
                        == old(self).last_file_hash
                },
                TextRead::NotText => d is Ignore && final(self).last_text == old(self).last_text
                    && final(self).last_file_hash == old(self).last_file_hash,
                TextRead::Failed => d is Retry && final(self).last_text == old(self).last_text
                    && final(self).last_file_hash == old(self).last_file_hash,
            },
    {
        match read {
            TextRead::Text(t) => {
                if !t.as_str().is_empty() && t != self.last_text {
                    let h = hash_text(&t);
                    if remote_hash != 0 && h == remote_hash {
                        self.last_text = t;
                        TextDecision::Echo
                    } else {
                        self.last_text = t.clone();
                        self.last_file_hash = 0;
                        TextDecision::Broadcast(t)
                    }
                } else {
                    TextDecision::Ignore
                }
            },
            TextRead::NotText => TextDecision::Ignore,
            TextRead::Failed => TextDecision::Retry,
        }
    }

    /// The end of a poll that saw a change.  A handled change resets the retry count
    /// and records the counter; an unhandled one counts a retry, and after
    /// `MAX_RETRIES` of them the change is given up (returns `true`) as if handled.
    pub fn finish(&mut self, handled: bool, counter: Option<i64>) -> (gave_up: bool)
        requires
            old(self).wf(),
        ensures
            final(self).wf(),
            final(self).last_text == old(self).last_text,
            final(self).last_file_hash == old(self).last_file_hash,
            final(self).writing_since_ms == old(self).writing_since_ms,
            gave_up == (!handled && old(self).fail_count + 1 >= MAX_RETRIES),
            handled || gave_up ==> final(self).fail_count == 0 && final(self).last_counter == match counter {
                Some(c) => c,
                None => old(self).last_counter,
            },
            !handled && !gave_up ==> final(self).fail_count == old(self).fail_count + 1
                && final(self).last_counter == old(self).last_counter,
            !handled ==> gave_up == gives_up(old(self).fail_count) && final(self).fail_count
                == fail_count_after_failure(old(self).fail_count),
    {
        if handled {
            self.fail_count = 0;
            match counter {
                Some(c) => self.last_counter = c,
                None => {},
            }
            false
        } else {
            self.fail_count = self.fail_count + 1;
            if self.fail_count >= MAX_RETRIES {
                self.fail_count = 0;
                match counter {
                    Some(c) => self.last_counter = c,
                    None => {},
                }
                true
            } else {
                false
            }
        }
    }
}

/// The paths not marked as placeholders, in order.
/// What an unpaused poll makes of the time since which the "writing" flag has been
/// seen set, when the flag is set at time `now`: the decision, and the new time.
pub open spec fn writing_gate(since: Option<u64>, now: u64) -> (Gate, Option<u64>) {
    match since {
        None => (Gate::Skip, Some(now)),
        Some(start) => if (if now >= start { now - start } else { 0 }) / 1000 > WRITING_TIMEOUT_SECS {
            (Gate::Proceed { reset_writing_flag: true }, None)
        } else {
            (Gate::Skip, Some(start))
        },
    }
}

/// The time since which the flag has been seen set, before poll `i` of unpaused
/// polls at the times `times`, the flag set at each, starting with none.
pub open spec fn since_before(times: Seq<u64>, i: nat) -> Option<u64>
    decreases i,
{
    if i == 0 {
        None
    } else {
        writing_gate(since_before(times, (i - 1) as nat), times[i - 1]).1
    }
}

/// Whether a poll that could not read the change, at retry count `c`, gives it up.
pub open spec fn gives_up(c: u32) -> bool {
    c + 1 >= MAX_RETRIES
}

/// The retry count after a poll that could not read the change.
pub open spec fn fail_count_after_failure(c: u32) -> u32 {
    if gives_up(c) { 0 } else { (c + 1) as u32 }
}

/// The retry count after `k` polls in a row that could not read the change.
pub open spec fn fail_count_after_failures(c: u32, k: nat) -> u32
    decreases k,
{
    if k == 0 {
        c
    } else {
        fail_count_after_failure(fail_count_after_failures(c, (k - 1) as nat))
    }
}

proof fn lemma_since_stays(times: Seq<u64>, i: nat)
    requires
        1 <= i <= times.len(),
        forall|k: int| 0 <= k < i ==> (#[trigger] writing_gate(since_before(times, k as nat), times[k])).0 == Gate::Skip,
        forall|a: int, b: int| 0 <= a <= b < times.len() ==> times[a] <= times[b],
    ensures
        since_before(times, i) == Some(times[0]),
    decreases i,
{
    if i > 1 {
        lemma_since_stays(times, (i - 1) as nat);
        let k = (i - 1) as int;
        assert(writing_gate(since_before(times, k as nat), times[k]).0 == Gate::Skip);
    } else {
        assert(since_before(times, 0) == None::<u64>);
    }
}

/// While the "writing" flag stays set over unpaused polls, the monitor skips them
/// until the flag has been seen set for more than `WRITING_TIMEOUT_SECS` seconds:
/// over polls at non-decreasing times whose last comes that long after the first,
/// some poll goes on and clears the flag.
pub proof fn lemma_stuck_writing_flag_is_cleared(times: Seq<u64>)
    requires
        times.len() >= 1,
        forall|a: int, b: int| 0 <= a <= b < times.len() ==> times[a] <= times[b],
        (times.last() - times[0]) / 1000 > WRITING_TIMEOUT_SECS,
    ensures
        exists|k: int| 0 <= k < times.len()
            && (#[trigger] writing_gate(since_before(times, k as nat), times[k])).0 == (Gate::Proceed { reset_writing_flag: true }),
{
    let n = times.len() as int;
    if forall|k: int| 0 <= k < n - 1 ==> (#[trigger] writing_gate(since_before(times, k as nat), times[k])).0 == Gate::Skip {
        if n == 1 {
            assert(times.last() == times[0]);
        } else {
            lemma_since_stays(times, (n - 1) as nat);
            assert(times[n - 1] >= times[0]);
            assert(writing_gate(since_before(times, (n - 1) as nat), times[n - 1]).0 == (Gate::Proceed { reset_writing_flag: true }));
        }
    } else {
        let k = choose|k: int| 0 <= k < n - 1 && (#[trigger] writing_gate(since_before(times, k as nat), times[k])).0 != Gate::Skip;
        let w = writing_gate(since_before(times, k as nat), times[k]);
        assert(w.0 == (Gate::Proceed { reset_writing_flag: true }));
    }
}

proof fn lemma_failures_count_up(c: u32, k: nat)
    requires
        c + k < MAX_RETRIES,
    ensures
        fail_count_after_failures(c, k) == c + k,
    decreases k,
{
    if k > 0 {
        lemma_failures_count_up(c, (k - 1) as nat);
    }
}

/// A change whose reads keep failing is retried and then given up: from retry count
/// `c`, the next `MAX_RETRIES - 1 - c` failed polls are retried and the one after
/// them gives the change up (so a new change is tried on at most `MAX_RETRIES` polls).
pub proof fn lemma_unreadable_change_is_given_up(c: u32)
    requires
        c < MAX_RETRIES,
    ensures
        forall|k: nat| k < MAX_RETRIES - 1 - c ==> !gives_up(#[trigger] fail_count_after_failures(c, k)),
        gives_up(fail_count_after_failures(c, (MAX_RETRIES - 1 - c) as nat)),
{
    assert forall|k: nat| k < MAX_RETRIES - 1 - c implies !gives_up(#[trigger] fail_count_after_failures(c, k)) by {
        lemma_failures_count_up(c, k);
    }
    lemma_failures_count_up(c, (MAX_RETRIES - 1 - c) as nat);
}

pub open spec fn kept_paths(paths: Seq<String>, marks: Seq<bool>) -> Seq<String>
    decreases paths.len(),
{
    if paths.len() == 0 || marks.len() == 0 {
        Seq::empty()
    } else {
        let rest = kept_paths(paths.drop_last(), marks.drop_last());
        if marks.last() {
            rest
        } else {
            rest.push(paths.last())
        }
    }
}

/// Whether the increasing positions `idx` pick out of `paths`, one for each path of
/// `out` in order, exactly the paths that `marks` does not mark.
pub open spec fn picks_unmarked(paths: Seq<String>, marks: Seq<bool>, out: Seq<String>, idx: Seq<int>) -> bool {
    &&& idx.len() == out.len()
    &&& forall|k: int| 0 <= k < idx.len() ==> 0 <= #[trigger] idx[k] < paths.len() && !marks[idx[k]] && out[k] == paths[idx[k]]
    &&& forall|a: int, b: int| 0 <= a < b < idx.len() ==> #[trigger] idx[a] < #[trigger] idx[b]
    &&& forall|i: int| 0 <= i < paths.len() && !marks[i] ==> exists|k: int| 0 <= k < idx.len() && #[trigger] idx[k] == i
}

proof fn lemma_picks_membership(paths: Seq<String>, marks: Seq<bool>, out: Seq<String>, idx: Seq<int>)
    requires
        picks_unmarked(paths, marks, out, idx),
    ensures
        forall|i: int| 0 <= i < paths.len() && !marks[i] ==> out.contains(#[trigger] paths[i]),
{
    assert forall|i: int| 0 <= i < paths.len() && !marks[i] implies out.contains(#[trigger] paths[i]) by {
        let k = choose|k: int| 0 <= k < idx.len() && #[trigger] idx[k] == i;
        assert(out[k] == paths[i]);
    }
}

/// The positions of the paths that `kept_paths` keeps, in increasing order.
proof fn kept_indices(paths: Seq<String>, marks: Seq<bool>) -> (idx: Seq<int>)
    requires
        paths.len() == marks.len(),
    ensures
        idx.len() == kept_paths(paths, marks).len(),
        forall|k: int| 0 <= k < idx.len() ==> 0 <= #[trigger] idx[k] < paths.len() && !marks[idx[k]]
            && kept_paths(paths, marks)[k] == paths[idx[k]],
        forall|a: int, b: int| 0 <= a < b < idx.len() ==> #[trigger] idx[a] < #[trigger] idx[b],
        forall|i: int| 0 <= i < paths.len() && !marks[i] ==> exists|k: int| 0 <= k < idx.len() && #[trigger] idx[k] == i,
    decreases paths.len(),
{
    if paths.len() == 0 {
        Seq::empty()
    } else {
        let pd = paths.drop_last();
        let md = marks.drop_last();
        let r = kept_indices(pd, md);
        let n = paths.len() - 1;
        assert forall|k: int| 0 <= k < r.len() implies paths[r[k]] == pd[r[k]] && marks[r[k]] == md[r[k]] by {}
        if marks.last() {
            assert forall|i: int| 0 <= i < paths.len() && !marks[i] implies exists|k: int| 0 <= k < r.len() && #[trigger] r[k] == i by {
                assert(i < n);
                assert(md[i] == marks[i]);
            }
            r
        } else {
            let idx = r.push(n);
            assert forall|i: int| 0 <= i < paths.len() && !marks[i] implies exists|k: int| 0 <= k < idx.len() && #[trigger] idx[k] == i by {
                if i == n {
                    assert(idx[r.len() as int] == i);
                } else {
                    assert(md[i] == marks[i]);
                    let k = choose|k: int| 0 <= k < r.len() && #[trigger] r[k] == i;
                    assert(idx[k] == i);
                }
            }
            assert forall|k: int| 0 <= k < idx.len() implies 0 <= #[trigger] idx[k] < paths.len() && !marks[idx[k]]
                && kept_paths(paths, marks)[k] == paths[idx[k]] by {
                if k < r.len() {
                    assert(idx[k] == r[k]);
                }
            }
            idx
        }
    }
}

/// The files offered are exactly the clipboard paths not marked as placeholders, in
/// their order: there are increasing positions, one per offered path, that pick
/// out the unmarked paths and every one of them.
pub proof fn lemma_offered_paths_are_the_unmarked(paths: Seq<String>, marks: Seq<bool>)
    requires
        paths.len() == marks.len(),
    ensures
        exists|idx: Seq<int>| #[trigger] picks_unmarked(paths, marks, kept_paths(paths, marks), idx),
        forall|i: int| 0 <= i < paths.len() && !marks[i] ==> kept_paths(paths, marks).contains(#[trigger] paths[i]),
{
    let idx = kept_indices(paths, marks);
    assert(picks_unmarked(paths, marks, kept_paths(paths, marks), idx));
    assert forall|i: int| 0 <= i < paths.len() && !marks[i] implies kept_paths(paths, marks).contains(#[trigger] paths[i]) by {
        let k = choose|k: int| 0 <= k < idx.len() && #[trigger] idx[k] == i;
        assert(kept_paths(paths, marks)[k] == paths[i]);
    }
}

proof fn lemma_kept_empty(paths: Seq<String>, marks: Seq<bool>)
    requires
        paths.len() == marks.len(),
        kept_paths(paths, marks).len() == 0,
    ensures
        forall|i: int| 0 <= i < paths.len() ==> marks[i],
    decreases paths.len(),
{
    if paths.len() > 0 {
        if !marks.last() {
            assert(kept_paths(paths, marks).len() > 0);
        }
        lemma_kept_empty(paths.drop_last(), marks.drop_last());
        assert forall|i: int| 0 <= i < paths.len() implies marks[i] by {
            if i < paths.len() - 1 {
                assert(marks.drop_last()[i] == marks[i]);
            }
        }
    }
}

proof fn lemma_kept_nonempty(paths: Seq<String>, marks: Seq<bool>)
    requires
        paths.len() == marks.len(),
        kept_paths(paths, marks).len() > 0,
    ensures
        !(forall|i: int| 0 <= i < paths.len() ==> marks[i]),
    decreases paths.len(),
{
    if paths.len() > 0 {
        if marks.last() {
            lemma_kept_nonempty(paths.drop_last(), marks.drop_last());
            let i = choose|i: int| 0 <= i < paths.len() - 1 && !marks.drop_last()[i];
            assert(!marks[i]);
        } else {
            assert(!marks[paths.len() - 1]);
        }
    }
}

/// The paths not marked as placeholders, in order.
fn keep_unmarked(paths: &Vec<String>, marks: &Vec<bool>) -> (r: Vec<String>)
    requires
        paths@.len() == marks@.len(),
    ensures
        r@ == kept_paths(paths@, marks@),
{
    let mut out: Vec<String> = Vec::new();
    let mut j: usize = 0;
    while j < paths.len()
        invariant
            j <= paths@.len(),
            paths@.len() == marks@.len(),
            out@ == kept_paths(paths@.take(j as int), marks@.take(j as int)),
        decreases paths@.len() - j,
    {
        assert(paths@.take(j + 1).drop_last() =~= paths@.take(j as int));
        assert(marks@.take(j + 1).drop_last() =~= marks@.take(j as int));
        if !marks[j] {
            out.push(paths[j].clone());
        }
        j = j + 1;
    }
    assert(paths@.take(paths@.len() as int) =~= paths@);
    assert(marks@.take(marks@.len() as int) =~= marks@);
    out
}

/// Text received from another device and written to the clipboard is not sent
/// back when the monitor sees it: receiving records the text's hash as the last
/// remote hash, and text with that hash is not sent (unless the hash is 0, the
/// value that stands for "none").
pub proof fn lemma_remote_text_is_not_sent_back(t: Seq<char>, last: Seq<char>)
    requires
        spec_hash_text(t) != 0,
    ensures
        !sends_text(t, last, spec_hash_text(t)),
{
}

/// The same text is not sent twice in a row.
pub proof fn lemma_same_text_is_not_sent_again(t: Seq<char>, remote_hash: u64)
    ensures
        !sends_text(t, t, remote_hash),
{
}

/// Files that this program put on the clipboard (a received file, or the
/// placeholder of one being received) are not offered back when the monitor sees
/// them: writing records their hash, and files with that hash are not offered
/// (unless the hash is 0, the value that stands for "none").
pub proof fn lemma_written_files_are_not_offered(paths: Seq<String>, marks: Seq<bool>, last_hash: u64)
    requires
        paths_key(paths) != 0,
    ensures
        !offers_files(paths, marks, paths_key(paths), last_hash),
{
}

/// The same files are not offered twice in a row.
pub proof fn lemma_same_files_are_not_offered_again(paths: Seq<String>, marks: Seq<bool>, placeholder_hash: u64)
    ensures
        !offers_files(paths, marks, placeholder_hash, paths_key(paths)),
{
}

} // verus!
