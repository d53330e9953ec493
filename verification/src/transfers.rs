//! The file batches in flight: those this machine is to receive (`PendingTransfers`)
//! and those it offers to send (`OutgoingFiles`), each keyed by transfer id.

use vstd::prelude::*;
use vstd::string::*;
use crate::state::{copy_items, FileItemInfo, OutgoingFile, OutgoingFileItem, OutgoingView, PendingTransfer, PendingView};
use crate::text::{chars_of, same_chars};

verus! {

/// Whether the string `s` reads `lit`.
pub fn text_is(s: &String, lit: &str) -> (r: bool)
    ensures
        r == (s@ == lit@),
{
    let a = chars_of(s.as_str());
    let b = chars_of(lit);
    same_chars(&a, &b)
}

impl PendingTransfer {
    /// An identical copy of this transfer.
    pub fn duplicate(&self) -> (r: PendingTransfer)
        ensures
            r@ == self@,
    {
        PendingTransfer {
            display_name: self.display_name.clone(),
            files: copy_items(&self.files),
            total_size: self.total_size,
            sender_id: self.sender_id.clone(),
            sender_ip: self.sender_ip.clone(),
            sender_port: self.sender_port,
            base_temp_dir: self.base_temp_dir.clone(),
            received_bytes: self.received_bytes,
            current_file_index: self.current_file_index,
            status: self.status.clone(),
        }
    }
}

impl OutgoingFileItem {
    /// An identical copy of this item.
    pub fn duplicate(&self) -> (r: OutgoingFileItem)
        ensures
            r == *self,
    {
        OutgoingFileItem {
            absolute_path: self.absolute_path.clone(),
            relative_path: self.relative_path.clone(),
            file_size: self.file_size,
        }
    }
}

impl OutgoingFile {
    /// An identical copy of this batch.
    pub fn duplicate(&self) -> (r: OutgoingFile)
        ensures
            r@ == self@,
    {
        let mut files: Vec<OutgoingFileItem> = Vec::new();
        let mut j: usize = 0;
        while j < self.files.len()
            invariant
                j <= self.files@.len(),
                files@ == self.files@.subrange(0, j as int),
            decreases self.files@.len() - j,
        {
            files.push(self.files[j].duplicate());
            j = j + 1;
            assert(files@ =~= self.files@.subrange(0, j as int));
        }
        assert(self.files@.subrange(0, self.files@.len() as int) =~= self.files@);
        OutgoingFile { files, total_size: self.total_size }
    }
}

/// Whether no two entries of `s` share a key.
pub open spec fn unique_keys<V>(s: Seq<(Seq<char>, V)>) -> bool {
    forall|i: int, j: int|
        0 <= i < s.len() && 0 <= j < s.len() && i != j ==> #[trigger] s[i].0 != #[trigger] s[j].0
}

/// Whether some entry of `s` has the key `k`.
pub open spec fn has_key<V>(s: Seq<(Seq<char>, V)>, k: Seq<char>) -> bool {
    exists|i: int| 0 <= i < s.len() && #[trigger] s[i].0 == k
}

/// Why a download request is refused.
#[derive(Clone, Copy, Debug, PartialEq, Eq, Structural)]
pub enum DownloadRefusal {
    /// No transfer with that id is known.
    NotFound,
    /// The transfer is already being downloaded.
    AlreadyDownloading,
    /// The transfer has already been downloaded.
    AlreadyDone,
}

impl DownloadRefusal {
    /// The message shown to the user.
    pub fn message(&self) -> (r: String)
        ensures
            *self == DownloadRefusal::NotFound ==> r@ == "未找到对应的文件传输记录"@,
            *self == DownloadRefusal::AlreadyDownloading ==> r@ == "该文件正在下载中"@,
            *self == DownloadRefusal::AlreadyDone ==> r@ == "该文件已下载完成"@,
    {
        match self {
            DownloadRefusal::NotFound => String::from_str("未找到对应的文件传输记录"),
            DownloadRefusal::AlreadyDownloading => String::from_str("该文件正在下载中"),
            DownloadRefusal::AlreadyDone => String::from_str("该文件已下载完成"),
        }
    }
}

/// Where the chunk of one file of a batch is to be written.
pub struct ChunkTarget {
    pub base_temp_dir: String,
    pub relative_path: String,
}

/// What is left of a batch once its last chunk has arrived.
pub struct FinishedTransfer {
    pub base_temp_dir: String,
    pub files: Vec<FileItemInfo>,
    pub total_size: u64,
    pub display_name: String,
}

/// The view of one registry entry: its key and the view of its value.
pub open spec fn pending_entry_view(e: (String, PendingTransfer)) -> (Seq<char>, PendingView) {
    (e.0@, e.1@)
}

/// The view of one registry entry: its key and the view of its value.
pub open spec fn outgoing_entry_view(e: (String, OutgoingFile)) -> (Seq<char>, OutgoingView) {
    (e.0@, e.1@)
}

/// The transfers that this machine is to receive.
pub struct PendingTransfers {
    entries: Vec<(String, PendingTransfer)>,
}

impl View for PendingTransfers {
    type V = Seq<(Seq<char>, PendingView)>;

    closed spec fn view(&self) -> Seq<(Seq<char>, PendingView)> {
        self.entries@.map_values(|e: (String, PendingTransfer)| pending_entry_view(e))
    }
}

impl PendingTransfers {
    /// Whether each transfer id occurs once.
    pub open spec fn wf(&self) -> bool {
        unique_keys(self@)
    }

    /// No transfers.
    pub fn new() -> (r: Self)
        ensures
            r.wf(),
            r@ == Seq::<(Seq<char>, PendingView)>::empty(),
    {
        let r = PendingTransfers { entries: Vec::new() };
        assert(r@ =~= Seq::<(Seq<char>, PendingView)>::empty());
        r
    }

    /// Position of transfer `id`.
    pub fn index_of(&self, id: &String) -> (r: Option<usize>)
        ensures
            match r {
                Some(i) => i < self@.len() && self@[i as int].0 == id@,
                None => !has_key(self@, id@),
            },
    {
        let mut j: usize = 0;
        while j < self.entries.len()
            invariant
                j <= self.entries@.len(),
                forall|k: int| 0 <= k < j ==> self@[k].0 != id@,
            decreases self.entries@.len() - j,
        {
            if self.entries[j].0 == *id {
                return Some(j);
            }
            j = j + 1;
        }
        None
    }

    /// Whether transfer `id` is known.
    pub fn contains(&self, id: &String) -> (r: bool)
        ensures
            r == has_key(self@, id@),
    {
        self.index_of(id).is_some()
    }

    /// A copy of transfer `id`.
    pub fn get(&self, id: &String) -> (r: Option<PendingTransfer>)
        ensures
            match r {
                Some(t) => exists|i: int| 0 <= i < self@.len() && self@[i].0 == id@ && self@[i].1 == t@,
                None => !has_key(self@, id@),
            },
    {
        match self.index_of(id) {
            Some(i) => Some(self.entries[i].1.duplicate()),
            None => None,
        }
    }

    /// Registers transfer `id`, replacing an earlier one of the same id.
    pub fn insert(&mut self, id: String, t: PendingTransfer)
        requires
            old(self).wf(),
        ensures
            final(self).wf(),
            has_key(old(self)@, id@) ==> exists|i: int|
                0 <= i < old(self)@.len() && old(self)@[i].0 == id@ && final(self)@ == old(self)@.update(i, (id@, t@)),
            !has_key(old(self)@, id@) ==> final(self)@ == old(self)@.push((id@, t@)),
    {
        let ghost k = id@;
        let ghost tv = t@;
        match self.index_of(&id) {
            Some(i) => {
                self.entries.set(i, (id, t));
                assert(self@ =~= old(self)@.update(i as int, (k, tv)));
            },
            None => {
                self.entries.push((id, t));
                assert(self@ =~= old(self)@.push((k, tv)));
            },
        }
        assert(unique_keys(self@)) by {
            assert forall|a: int, b: int|
                0 <= a < self@.len() && 0 <= b < self@.len() && a != b
                implies #[trigger] self@[a].0 != #[trigger] self@[b].0 by {
                if a < old(self)@.len() && b < old(self)@.len() {
                    if self@[a].0 != old(self)@[a].0 {
                        assert(self@[a].0 == k);
                    }
                    if self@[b].0 != old(self)@[b].0 {
                        assert(self@[b].0 == k);
                    }
                }
            }
        }
    }

    /// Forgets all transfers.
    pub fn clear(&mut self)
        ensures
            final(self).wf(),
            final(self)@ == Seq::<(Seq<char>, PendingView)>::empty(),
    {
        self.entries.clear();
        assert(self@ =~= Seq::<(Seq<char>, PendingView)>::empty());
    }

    fn set_value(&mut self, i: usize, t: PendingTransfer)
        requires
            old(self).wf(),
            i < old(self)@.len(),
        ensures
            final(self).wf(),
            final(self)@ == old(self)@.update(i as int, (old(self)@[i as int].0, t@)),
    {
        let k = self.entries[i].0.clone();
        let ghost tv = t@;
        self.entries.set(i, (k, t));
        assert(self@ =~= old(self)@.update(i as int, (old(self)@[i as int].0, tv)));
        assert(unique_keys(self@)) by {
            assert forall|a: int, b: int|
                0 <= a < self@.len() && 0 <= b < self@.len() && a != b
                implies #[trigger] self@[a].0 != #[trigger] self@[b].0 by {
                assert(old(self)@[a].0 != old(self)@[b].0);
            }
        }
    }

    /// A download request for transfer `id`: refused if the transfer is unknown,
    /// already downloading or done; otherwise it is marked downloading, and the
    /// sender's id, address and port are returned.
    pub fn begin_download(&mut self, id: &String) -> (r: Result<(String, String, u16), DownloadRefusal>)
        requires
            old(self).wf(),
        ensures
            final(self).wf(),
            (r matches Err(e) && e == DownloadRefusal::NotFound) <==> !has_key(old(self)@, id@),
            r is Err ==> final(self)@ == old(self)@,
            has_key(old(self)@, id@) ==> exists|i: int|
                0 <= i < old(self)@.len() && #[trigger] old(self)@[i].0 == id@ && ({
                    let t = old(self)@[i].1;
                    if t.status == "downloading"@ {
                        r matches Err(e) && e == DownloadRefusal::AlreadyDownloading
                    } else if t.status == "done"@ {
                        r matches Err(e) && e == DownloadRefusal::AlreadyDone
                    } else {
                        &&& r matches Ok((sid, ip, port)) && sid@ == t.sender_id && ip@ == t.sender_ip
                            && port == t.sender_port
                        &&& final(self)@ == old(self)@.update(i, (id@, PendingView { status: "downloading"@, ..t }))
                    }
                }),
    {
        match self.index_of(id) {
            None => Err(DownloadRefusal::NotFound),
            Some(i) => {
                let t = &self.entries[i].1;
                if text_is(&t.status, "downloading") {
                    return Err(DownloadRefusal::AlreadyDownloading);
                }
                if text_is(&t.status, "done") {
                    return Err(DownloadRefusal::AlreadyDone);
                }
                let mut nt = t.duplicate();
                nt.status = String::from_str("downloading");
                let out = (nt.sender_id.clone(), nt.sender_ip.clone(), nt.sender_port);
                self.set_value(i, nt);
                Ok(out)
            },
        }
    }

    /// Bytes received so far for transfer `id`, if known.
    pub fn received_bytes(&self, id: &String) -> (r: Option<u64>)
        ensures
            match r {
                Some(b) => exists|i: int| 0 <= i < self@.len() && self@[i].0 == id@ && self@[i].1.received_bytes == b,
                None => !has_key(self@, id@),
            },
    {
        match self.index_of(id) {
            Some(i) => Some(self.entries[i].1.received_bytes),
            None => None,
        }
    }

    /// A chunk of `len` bytes for file `file_index` of transfer `id` has arrived:
    /// the transfer counts the bytes (modulo 2^64, as a release build counts), is
    /// marked downloading and records the file index.  Returns where the chunk goes, or `None` if the transfer is unknown
    /// or the index lies outside the batch.
    pub fn record_chunk(&mut self, id: &String, file_index: usize, len: u64) -> (r: Option<ChunkTarget>)
        requires
            old(self).wf(),
        ensures
            final(self).wf(),
            !has_key(old(self)@, id@) ==> r is None && final(self)@ == old(self)@,
            has_key(old(self)@, id@) ==> exists|i: int|
                0 <= i < old(self)@.len() && #[trigger] old(self)@[i].0 == id@ && ({
                    let t = old(self)@[i].1;
                    &&& final(self)@ == old(self)@.update(i, (id@, PendingView {
                        received_bytes: t.received_bytes.wrapping_add(len),
                        current_file_index: file_index,
                        status: "downloading"@,
                        ..t
                    }))
                    &&& if file_index < t.files.len() {
                        r matches Some(c) && c.base_temp_dir@ == t.base_temp_dir
                            && c.relative_path == t.files[file_index as int].relative_path
                    } else {
                        r is None
                    }
                }),
    {
        match self.index_of(id) {
            None => None,
            Some(i) => {
                let mut nt = self.entries[i].1.duplicate();
                nt.received_bytes = nt.received_bytes.wrapping_add(len);
                nt.status = String::from_str("downloading");
                nt.current_file_index = file_index;
                let target = if file_index < nt.files.len() {
                    Some(ChunkTarget {
                        base_temp_dir: nt.base_temp_dir.clone(),
                        relative_path: nt.files[file_index].relative_path.clone(),
                    })
                } else {
                    None
                };
                self.set_value(i, nt);
                target
            },
        }
    }

    /// The last chunk of transfer `id` has arrived: it is marked done, and its
    /// temporary directory, files, total size and name are returned.
    pub fn finish(&mut self, id: &String) -> (r: Option<FinishedTransfer>)
        requires
            old(self).wf(),
        ensures
            final(self).wf(),
            !has_key(old(self)@, id@) ==> r is None && final(self)@ == old(self)@,
            has_key(old(self)@, id@) ==> exists|i: int|
                0 <= i < old(self)@.len() && #[trigger] old(self)@[i].0 == id@ && ({
                    let t = old(self)@[i].1;
                    &&& final(self)@ == old(self)@.update(i, (id@, PendingView { status: "done"@, ..t }))
                    &&& r matches Some(f) && f.base_temp_dir@ == t.base_temp_dir && f.files@ == t.files
                        && f.total_size == t.total_size && f.display_name@ == t.display_name
                }),
    {
        match self.index_of(id) {
            None => None,
            Some(i) => {
                let mut nt = self.entries[i].1.duplicate();
                nt.status = String::from_str("done");
                let f = FinishedTransfer {
                    base_temp_dir: nt.base_temp_dir.clone(),
                    files: copy_items(&nt.files),
                    total_size: nt.total_size,
                    display_name: nt.display_name.clone(),
                };
                self.set_value(i, nt);
                Some(f)
            },
        }
    }
}

/// The file batches that this machine offers to send.
pub struct OutgoingFiles {
    entries: Vec<(String, OutgoingFile)>,
}

impl View for OutgoingFiles {
    type V = Seq<(Seq<char>, OutgoingView)>;

    closed spec fn view(&self) -> Seq<(Seq<char>, OutgoingView)> {
        self.entries@.map_values(|e: (String, OutgoingFile)| outgoing_entry_view(e))
    }
}

impl OutgoingFiles {
    /// Whether each transfer id occurs once.
    pub open spec fn wf(&self) -> bool {
        unique_keys(self@)
    }

    /// No batches.
    pub fn new() -> (r: Self)
        ensures
            r.wf(),
            r@ == Seq::<(Seq<char>, OutgoingView)>::empty(),
    {
        let r = OutgoingFiles { entries: Vec::new() };
        assert(r@ =~= Seq::<(Seq<char>, OutgoingView)>::empty());
        r
    }

    fn index_of(&self, id: &String) -> (r: Option<usize>)
        ensures
            match r {
                Some(i) => i < self@.len() && self@[i as int].0 == id@,
                None => !has_key(self@, id@),
            },
    {
        let mut j: usize = 0;
        while j < self.entries.len()
            invariant
                j <= self.entries@.len(),
                forall|k: int| 0 <= k < j ==> self@[k].0 != id@,
            decreases self.entries@.len() - j,
        {
            if self.entries[j].0 == *id {
                return Some(j);
            }
            j = j + 1;
        }
        None
    }

    /// A copy of batch `id`.
    pub fn get(&self, id: &String) -> (r: Option<OutgoingFile>)
        ensures
            match r {
                Some(f) => exists|i: int| 0 <= i < self@.len() && self@[i].0 == id@ && self@[i].1 == f@,
                None => !has_key(self@, id@),
            },
    {
        match self.index_of(id) {
            Some(i) => Some(self.entries[i].1.duplicate()),
            None => None,
        }
    }

    /// Offers batch `id`, replacing an earlier one of the same id.
    pub fn insert(&mut self, id: String, f: OutgoingFile)
        requires
            old(self).wf(),
        ensures
            final(self).wf(),
            has_key(old(self)@, id@) ==> exists|i: int|
                0 <= i < old(self)@.len() && old(self)@[i].0 == id@ && final(self)@ == old(self)@.update(i, (id@, f@)),
            !has_key(old(self)@, id@) ==> final(self)@ == old(self)@.push((id@, f@)),
    {
        let ghost k = id@;
        let ghost fv = f@;
        match self.index_of(&id) {
            Some(i) => {
                self.entries.set(i, (id, f));
                assert(self@ =~= old(self)@.update(i as int, (k, fv)));
            },
            None => {
                self.entries.push((id, f));
                assert(self@ =~= old(self)@.push((k, fv)));
            },
        }
        assert(unique_keys(self@)) by {
            assert forall|a: int, b: int|
                0 <= a < self@.len() && 0 <= b < self@.len() && a != b
                implies #[trigger] self@[a].0 != #[trigger] self@[b].0 by {
                if a < old(self)@.len() && b < old(self)@.len() {
                    if self@[a].0 != old(self)@[a].0 {
                        assert(self@[a].0 == k);
                    }
                    if self@[b].0 != old(self)@[b].0 {
                        assert(self@[b].0 == k);
                    }
                }
            }
        }
    }
}

} // verus!
