//! The data model shared by discovery, transport and the clipboard monitor,
//! and the bounded clipboard history.

use vstd::prelude::*;
use vstd::string::*;

verus! {

/// How many entries the clipboard history keeps; the newest come first.
pub const HISTORY_LIMIT: usize = 20;

/// Connection state of a discovered device.
#[derive(Clone, Copy, Debug, PartialEq, Eq, Structural)]
pub enum DeviceStatus {
    Connected,
    Connecting,
    Offline,
}

/// A device found on the local network.
#[derive(Clone, Debug)]
pub struct DeviceInfo {
    pub id: String,
    pub name: String,
    pub ip: String,
    pub port: u16,
    pub status: DeviceStatus,
    pub last_seen: u64,
}

impl DeviceInfo {
    /// An identical copy of this device record.
    pub fn duplicate(&self) -> (r: DeviceInfo)
        ensures
            r == *self,
    {
        DeviceInfo {
            id: self.id.clone(),
            name: self.name.clone(),
            ip: self.ip.clone(),
            port: self.port,
            status: self.status,
            last_seen: self.last_seen,
        }
    }
}

/// An identical copy of an optional string.
pub fn copy_opt_string(s: &Option<String>) -> (r: Option<String>)
    ensures
        r == *s,
{
    match s {
        Some(v) => Some(v.clone()),
        None => None,
    }
}

/// One entry of the clipboard history.
#[derive(Clone, Debug)]
pub struct ClipboardEntry {
    pub id: String,
    pub text: String,
    pub timestamp: u64,
    pub source: String,
    /// `"text"`, `"image"` or `"file"`.
    pub content_type: String,
    /// Where a received or sent file lies on this machine, once known.
    pub file_path: Option<String>,
    /// Size in bytes of a file batch or an image.
    pub file_size: Option<u64>,
    /// `"pending"`, `"downloading"` or `"done"`, for received files only.
    pub download_status: Option<String>,
    /// The file transfer this entry belongs to.
    pub transfer_id: Option<String>,
}

impl ClipboardEntry {
    /// An identical copy of this entry.
    pub fn duplicate(&self) -> (r: ClipboardEntry)
        ensures
            r == *self,
    {
        ClipboardEntry {
            id: self.id.clone(),
            text: self.text.clone(),
            timestamp: self.timestamp,
            source: self.source.clone(),
            content_type: self.content_type.clone(),
            file_path: copy_opt_string(&self.file_path),
            file_size: self.file_size,
            download_status: copy_opt_string(&self.download_status),
            transfer_id: copy_opt_string(&self.transfer_id),
        }
    }

    /// A text entry.
    pub fn new_text(id: String, text: String, timestamp: u64, source: String) -> (r: Self)
        ensures
            r.id == id,
            r.text == text,
            r.timestamp == timestamp,
            r.source == source,
            r.content_type@ == "text"@,
            r.file_path is None,
            r.file_size is None,
            r.download_status is None,
            r.transfer_id is None,
    {
        ClipboardEntry {
            id,
            text,
            timestamp,
            source,
            content_type: String::from_str("text"),
            file_path: None,
            file_size: None,
            download_status: None,
            transfer_id: None,
        }
    }

    /// A file entry; its text is the name shown for the file batch.
    pub fn new_file(
        id: String,
        file_name: String,
        timestamp: u64,
        source: String,
        file_size: u64,
        file_path: Option<String>,
        download_status: Option<String>,
        transfer_id: Option<String>,
    ) -> (r: Self)
        ensures
            r.id == id,
            r.text == file_name,
            r.timestamp == timestamp,
            r.source == source,
            r.content_type@ == "file"@,
            r.file_path == file_path,
            r.file_size == Some(file_size),
            r.download_status == download_status,
            r.transfer_id == transfer_id,
    {
        ClipboardEntry {
            id,
            text: file_name,
            timestamp,
            source,
            content_type: String::from_str("file"),
            file_path,
            file_size: Some(file_size),
            download_status,
            transfer_id,
        }
    }

    /// An image entry; it carries no text, and its size is that of the PNG data.
    pub fn new_image(id: String, timestamp: u64, source: String, png_size: u64) -> (r: Self)
        ensures
            r.id == id,
            r.text@ == Seq::<char>::empty(),
            r.timestamp == timestamp,
            r.source == source,
            r.content_type@ == "image"@,
            r.file_path is None,
            r.file_size == Some(png_size),
            r.download_status is None,
            r.transfer_id is None,
    {
        ClipboardEntry {
            id,
            text: String::new(),
            timestamp,
            source,
            content_type: String::from_str("image"),
            file_path: None,
            file_size: Some(png_size),
            download_status: None,
            transfer_id: None,
        }
    }
}

/// One file of a batch, as announced to the receiving side.
#[derive(Clone, Debug)]
pub struct FileItemInfo {
    /// Path inside the batch, with `/` separators (such as `folder/sub/file.txt`).
    pub relative_path: String,
    pub file_size: u64,
}

impl FileItemInfo {
    /// An identical copy of this item.
    pub fn duplicate(&self) -> (r: FileItemInfo)
        ensures
            r == *self,
    {
        FileItemInfo { relative_path: self.relative_path.clone(), file_size: self.file_size }
    }
}

/// An identical copy of a list of file items.
pub fn copy_items(items: &Vec<FileItemInfo>) -> (r: Vec<FileItemInfo>)
    ensures
        r@ == items@,
{
    let mut out: Vec<FileItemInfo> = Vec::new();
    let mut j: usize = 0;
    while j < items.len()
        invariant
            j <= items@.len(),
            out@ == items@.subrange(0, j as int),
        decreases items@.len() - j,
    {
        out.push(items[j].duplicate());
        j = j + 1;
        assert(out@ =~= items@.subrange(0, j as int));
    }
    assert(items@.subrange(0, items@.len() as int) =~= items@);
    out
}

/// A file batch that this machine is to receive.
#[derive(Clone, Debug)]
pub struct PendingTransfer {
    pub display_name: String,
    pub files: Vec<FileItemInfo>,
    pub total_size: u64,
    pub sender_id: String,
    pub sender_ip: String,
    pub sender_port: u16,
    /// Directory under which the chunks are written while they arrive.
    pub base_temp_dir: String,
    /// Bytes received so far, over all files of the batch.
    pub received_bytes: u64,
    pub current_file_index: usize,
    /// `"pending"`, `"downloading"`, `"done"` or `"error"`.
    pub status: String,
}

/// The content of a pending transfer, with its strings and lists taken by their views.
pub struct PendingView {
    pub display_name: Seq<char>,
    pub files: Seq<FileItemInfo>,
    pub total_size: u64,
    pub sender_id: Seq<char>,
    pub sender_ip: Seq<char>,
    pub sender_port: u16,
    pub base_temp_dir: Seq<char>,
    pub received_bytes: u64,
    pub current_file_index: usize,
    pub status: Seq<char>,
}

impl View for PendingTransfer {
    type V = PendingView;

    open spec fn view(&self) -> PendingView {
        PendingView {
            display_name: self.display_name@,
            files: self.files@,
            total_size: self.total_size,
            sender_id: self.sender_id@,
            sender_ip: self.sender_ip@,
            sender_port: self.sender_port,
            base_temp_dir: self.base_temp_dir@,
            received_bytes: self.received_bytes,
            current_file_index: self.current_file_index,
            status: self.status@,
        }
    }
}

/// One file that this machine offers to send.
#[derive(Clone, Debug)]
pub struct OutgoingFileItem {
    pub absolute_path: String,
    pub relative_path: String,
    pub file_size: u64,
}

/// A file batch that this machine offers to send.
#[derive(Clone, Debug)]
pub struct OutgoingFile {
    pub files: Vec<OutgoingFileItem>,
    pub total_size: u64,
}

/// The content of an outgoing batch: its files and their total size.
pub struct OutgoingView {
    pub files: Seq<OutgoingFileItem>,
    pub total_size: u64,
}

impl View for OutgoingFile {
    type V = OutgoingView;

    open spec fn view(&self) -> OutgoingView {
        OutgoingView { files: self.files@, total_size: self.total_size }
    }
}

/// The payload of a `file-start` message.
#[derive(Clone, Debug)]
pub struct FileStartData {
    pub transfer_id: String,
    pub display_name: String,
    pub files: Vec<FileItemInfo>,
    pub total_size: u64,
}

/// A message between two devices.
#[derive(Clone, Debug)]
pub struct WsMessage {
    pub id: String,
    /// `"clipboard"`, `"file-start"`, `"file-request"`, `"file-chunk"` or `"file-end"`.
    pub msg_type: String,
    /// `"text"`, `"image"` or `"file"`.
    pub content_type: String,
    pub data: String,
    pub timestamp: u64,
    pub sender_id: String,
    pub sender_name: String,
}

/// What a device announces of itself on the discovery port.
#[derive(Clone, Debug)]
pub struct BroadcastInfo {
    pub id: String,
    pub name: String,
    pub ip: String,
    pub port: u16,
    pub timestamp: u64,
}

/// The history after `entry` is added in front, cut to `HISTORY_LIMIT` entries.
pub open spec fn history_after_push(history: Seq<ClipboardEntry>, entry: ClipboardEntry) -> Seq<
    ClipboardEntry,
> {
    let s = seq![entry] + history;
    if s.len() > HISTORY_LIMIT {
        s.subrange(0, HISTORY_LIMIT as int)
    } else {
        s
    }
}

/// Adds `entry` as the newest history entry, dropping the oldest beyond `HISTORY_LIMIT`.
pub fn push_history(history: &mut Vec<ClipboardEntry>, entry: ClipboardEntry)
    ensures
        final(history)@ == history_after_push(old(history)@, entry),
        final(history)@.len() <= HISTORY_LIMIT,
        final(history)@[0] == entry,
{
    history.insert(0, entry);
    if history.len() > HISTORY_LIMIT {
        history.truncate(HISTORY_LIMIT);
    }
    assert(history@ =~= history_after_push(old(history)@, entry));
}

/// Whether a history entry belongs to the transfer `transfer_id`.
pub open spec fn entry_has_transfer(e: ClipboardEntry, transfer_id: Seq<char>) -> bool {
    e.transfer_id matches Some(t) && t@ == transfer_id
}

/// Index of the first entry of the transfer, found by a scan from the front.
pub fn find_transfer_entry(history: &Vec<ClipboardEntry>, transfer_id: &String) -> (r: Option<usize>)
    ensures
        match r {
            Some(i) => i < history@.len() && entry_has_transfer(history@[i as int], transfer_id@)
                && forall|j: int| 0 <= j < i ==> !entry_has_transfer(#[trigger] history@[j], transfer_id@),
            None => forall|j: int|
                0 <= j < history@.len() ==> !entry_has_transfer(#[trigger] history@[j], transfer_id@),
        },
{
    let mut j: usize = 0;
    while j < history.len()
        invariant
            j <= history@.len(),
            forall|k: int| 0 <= k < j ==> !entry_has_transfer(#[trigger] history@[k], transfer_id@),
        decreases history@.len() - j,
    {
        match &history[j].transfer_id {
            Some(t) => {
                if *t == *transfer_id {
                    return Some(j);
                }
            },
            None => {},
        }
        j = j + 1;
    }
    None
}

} // verus!
