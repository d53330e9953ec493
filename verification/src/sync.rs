//! The state of the running program and the decisions of discovery, transport
//! and the commands of the window.  The caller holds one `AppState`, calls the
//! step that fits the event at hand, and performs the I/O that the step asks for.

use vstd::prelude::*;
use vstd::string::*;
use crate::batch::BatchInfo;
use crate::codec::{
    json_str_field, json_u64_field, spec_json_str_field, spec_json_u64_field, base64_decode, base64_encode, decode_image, hash_bytes, hash_text, new_uuid, spec_base64_decode,
    spec_base64_encode, spec_decode_image, spec_hash_bytes, spec_hash_text, RgbaImage,
};
use crate::dedup::SeenMessages;
use crate::devices::{has_id, DeviceRegistry};
use crate::monitor::{hash_paths, paths_key};
use crate::network::NetworkInterface;
use crate::protocol::{classify, format_host_port, kind_of, ws_address, host_port, MessageKind, BROADCAST_PORT, WS_PORT};
use crate::settings::AppSettings;
use crate::state::{
    entry_has_transfer, find_transfer_entry, history_after_push, push_history, BroadcastInfo, ClipboardEntry,
    DeviceInfo, DeviceStatus, FileItemInfo, FileStartData, OutgoingFile, PendingTransfer, WsMessage,
    HISTORY_LIMIT, copy_items,
};
use crate::transfers::{has_key, ChunkTarget, FinishedTransfer, OutgoingFiles, PendingTransfers};

verus! {

/// The source shown for entries that this machine produced: `本机`.
pub fn local_source() -> (r: String)
    ensures
        r@ == "本机"@,
{
    String::from_str("本机")
}

/// A message from this machine.
pub open spec fn own_message(m: WsMessage, msg_type: Seq<char>, content_type: Seq<char>, data: Seq<char>, now: u64, local_id: Seq<char>, local_name: Seq<char>) -> bool {
    &&& m.msg_type@ == msg_type
    &&& m.content_type@ == content_type
    &&& m.data@ == data
    &&& m.timestamp == now
    &&& m.sender_id@ == local_id
    &&& m.sender_name@ == local_name
    &&& crate::codec::uuid_v4_text(m.id@)
}

/// Whether the history `h` is `old` with `h[0]` added in front, cut to
/// `HISTORY_LIMIT` entries.
pub open spec fn pushed_onto(h: Seq<ClipboardEntry>, old: Seq<ClipboardEntry>) -> bool {
    h.len() >= 1 && h == history_after_push(old, h[0])
}

/// Whether two states have the same identity, settings and pause flag.
pub open spec fn same_settings(a: AppState, b: AppState) -> bool {
    &&& a.local_id == b.local_id
    &&& a.local_name == b.local_name
    &&& a.local_port == b.local_port
    &&& a.download_dir == b.download_dir
    &&& a.shortcut == b.shortcut
    &&& a.autostart == b.autostart
    &&& a.is_paused == b.is_paused
}

/// Whether two states have the same identity: id, name and port.
pub open spec fn same_identity(a: AppState, b: AppState) -> bool {
    &&& a.local_id == b.local_id
    &&& a.local_name == b.local_name
    &&& a.local_port == b.local_port
}

/// Whether two states have the same three echo hashes.
pub open spec fn same_hashes(a: AppState, b: AppState) -> bool {
    &&& a.written_placeholder_hash == b.written_placeholder_hash
    &&& a.last_remote_text_hash == b.last_remote_text_hash
    &&& a.last_remote_image_hash == b.last_remote_image_hash
}

/// What a received `file-start` leads to.
#[derive(Clone, Copy, Debug, PartialEq, Eq, Structural)]
pub enum FileStartPlan {
    /// Sent by this machine, or a transfer already known: nothing to do.
    Ignore,
    /// A new transfer; for a single top-level file a placeholder is first put on the
    /// clipboard.
    Accept { single_file: bool },
}

/// A download request ready to be sent to the device that offers the batch.
pub struct FileRequest {
    pub message: WsMessage,
    pub sender_id: String,
    pub sender_ip: String,
    pub sender_port: u16,
}

/// The fields that a `file-chunk` message carries, as far as they could be read.
pub struct ChunkFields {
    pub transfer_id: Option<String>,
    pub file_index: Option<u64>,
    pub data: Option<String>,
}

/// The view of an optional string.
pub open spec fn opt_view(o: Option<String>) -> Option<Seq<char>> {
    match o {
        Some(s) => Some(s@),
        None => None,
    }
}

/// The fields of a `file-chunk` payload, read from its JSON text: the strings
/// `transfer_id` and `data` and the integer `file_index`, each `None` where the
/// text does not hold it so (no JSON, not an object, missing, or of another type).
pub fn chunk_fields(data: &String) -> (f: ChunkFields)
    ensures
        opt_view(f.transfer_id) == spec_json_str_field(data@, "transfer_id"@),
        f.file_index == spec_json_u64_field(data@, "file_index"@),
        opt_view(f.data) == spec_json_str_field(data@, "data"@),
{
    ChunkFields {
        transfer_id: json_str_field(data, "transfer_id"),
        file_index: json_u64_field(data, "file_index"),
        data: json_str_field(data, "data"),
    }
}

/// The transfer that a `file-end` payload names: the string `transfer_id` of its
/// JSON text, or `None` where the text does not hold one.
pub fn file_end_transfer_id(data: &String) -> (r: Option<String>)
    ensures
        opt_view(r) == spec_json_str_field(data@, "transfer_id"@),
{
    json_str_field(data, "transfer_id")
}

/// A chunk to write: where it goes and its bytes.
pub struct ChunkWrite {
    pub target: ChunkTarget,
    pub bytes: Vec<u8>,
}

/// A discovery announcement to send on one interface.
pub struct Announcement {
    pub info: BroadcastInfo,
    /// The local address to send from: `ip:0`.
    pub bind_addr: String,
    /// Where to send: `broadcast:37020`.
    pub target: String,
}

/// The content of a `file-chunk` message before it is encoded as JSON.
pub struct ChunkPayload {
    pub transfer_id: String,
    pub file_index: u64,
    pub offset: u64,
    /// The chunk's bytes in standard Base64.
    pub data: String,
}

/// The state of the running program, apart from the connections and the window.
pub struct AppState {
    pub devices: DeviceRegistry,
    pub clipboard_history: Vec<ClipboardEntry>,
    pub seen_messages: SeenMessages,
    pub local_id: String,
    pub local_name: String,
    pub local_port: u16,
    /// Hash of the file list this program last put on the clipboard, or 0.
    pub written_placeholder_hash: u64,
    /// Hash of the text last received from another device, or 0.
    pub last_remote_text_hash: u64,
    /// Hash of the image last received from another device, or 0.
    pub last_remote_image_hash: u64,
    pub pending_transfers: PendingTransfers,
    pub outgoing_files: OutgoingFiles,
    pub download_dir: String,
    pub is_paused: bool,
    pub shortcut: String,
    pub autostart: bool,
}

impl AppState {
    /// Whether the registries hold their invariants and the history its bound.
    pub open spec fn wf(&self) -> bool {
        &&& self.devices.wf()
        &&& self.seen_messages.wf()
        &&& self.pending_transfers.wf()
        &&& self.outgoing_files.wf()
        &&& self.clipboard_history@.len() <= HISTORY_LIMIT
    }

    /// A fresh state: a new random id, the given host name and settings, the
    /// WebSocket port, and nothing known yet.
    pub fn new(local_name: String, settings: AppSettings) -> (r: Self)
        ensures
            r.wf(),
            crate::codec::uuid_v4_text(r.local_id@),
            r.local_name == local_name,
            r.local_port == WS_PORT,
            r.devices@.len() == 0,
            r.clipboard_history@.len() == 0,
            r.seen_messages@.len() == 0,
            r.pending_transfers@.len() == 0,
            r.outgoing_files@.len() == 0,
            r.written_placeholder_hash == 0,
            r.last_remote_text_hash == 0,
            r.last_remote_image_hash == 0,
            r.download_dir == settings.download_dir,
            r.shortcut == settings.shortcut,
            r.autostart == settings.autostart,
            !r.is_paused,
    {
        AppState {
            devices: DeviceRegistry::new(),
            clipboard_history: Vec::new(),
            seen_messages: SeenMessages::new(),
            local_id: new_uuid(),
            local_name,
            local_port: WS_PORT,
            written_placeholder_hash: 0,
            last_remote_text_hash: 0,
            last_remote_image_hash: 0,
            pending_transfers: PendingTransfers::new(),
            outgoing_files: OutgoingFiles::new(),
            download_dir: settings.download_dir,
            is_paused: false,
            shortcut: settings.shortcut,
            autostart: settings.autostart,
        }
    }

    fn own_message(&self, msg_type: &str, content_type: &str, data: String, now: u64) -> (m: WsMessage)
        ensures
            own_message(m, msg_type@, content_type@, data@, now, self.local_id@, self.local_name@),
    {
        WsMessage {
            id: new_uuid(),
            msg_type: String::from_str(msg_type),
            content_type: String::from_str(content_type),
            data,
            timestamp: now,
            sender_id: self.local_id.clone(),
            sender_name: self.local_name.clone(),
        }
    }

    /// Remembers an id of a message of this machine, so that it is not handled if it
    /// comes back.
    fn remember(&mut self, id: &String)
        requires
            old(self).wf(),
        ensures
            final(self).wf(),
            final(self).seen_messages@.contains(id@),
            final(self).seen_messages@ == crate::dedup::seen_after_own(old(self).seen_messages@, id@),
            final(self).devices == old(self).devices,
            final(self).clipboard_history == old(self).clipboard_history,
            final(self).pending_transfers == old(self).pending_transfers,
            final(self).outgoing_files == old(self).outgoing_files,
            final(self).local_id == old(self).local_id,
            final(self).local_name == old(self).local_name,
            final(self).is_paused == old(self).is_paused,
            final(self).written_placeholder_hash == old(self).written_placeholder_hash,
            final(self).last_remote_text_hash == old(self).last_remote_text_hash,
            final(self).last_remote_image_hash == old(self).last_remote_image_hash,
            final(self).download_dir == old(self).download_dir,
            same_settings(*old(self), *final(self)),
    {
        self.seen_messages.insert(id.clone());
        assert(!old(self).seen_messages@.contains(id@) ==> self.seen_messages@.last() == id@);
    }

    /// Local text to send to the other devices: a new `clipboard`/`text` message from
    /// this machine, its id remembered, and a history entry from `本机` added.
    pub fn prepare_text_broadcast(&mut self, text: String, now: u64) -> (m: WsMessage)
        requires
            old(self).wf(),
        ensures
            final(self).wf(),
            own_message(m, "clipboard"@, "text"@, text@, now, old(self).local_id@, old(self).local_name@),
            final(self).seen_messages@.contains(m.id@),
            pushed_onto(final(self).clipboard_history@, old(self).clipboard_history@),
            final(self).clipboard_history@[0].id == m.id,
            final(self).clipboard_history@[0].text@ == text@,
            final(self).clipboard_history@[0].content_type@ == "text"@,
            final(self).clipboard_history@[0].source@ == "本机"@,
            final(self).clipboard_history@[0].timestamp == now,
            final(self).clipboard_history@[0].file_path is None,
            final(self).clipboard_history@[0].file_size is None,
            final(self).clipboard_history@[0].download_status is None,
            final(self).clipboard_history@[0].transfer_id is None,
            final(self).seen_messages@ == crate::dedup::seen_after_own(old(self).seen_messages@, m.id@),
            final(self).devices == old(self).devices,
            final(self).pending_transfers == old(self).pending_transfers,
            final(self).outgoing_files == old(self).outgoing_files,
            same_settings(*old(self), *final(self)),
            same_hashes(*old(self), *final(self)),
    {
        let m = self.own_message("clipboard", "text", text.clone(), now);
        self.remember(&m.id);
        let entry = ClipboardEntry::new_text(m.id.clone(), text, now, local_source());
        push_history(&mut self.clipboard_history, entry);
        m
    }

    /// A local image (PNG bytes) to send: a new `clipboard`/`image` message whose
    /// data is the Base64 of the bytes, its id remembered, and a history entry from
    /// `本机` with the PNG size added.
    pub fn prepare_image_broadcast(&mut self, png: &Vec<u8>, now: u64) -> (m: WsMessage)
        requires
            old(self).wf(),
            4 * ((png@.len() + 2) / 3) <= usize::MAX,
        ensures
            final(self).wf(),
            own_message(m, "clipboard"@, "image"@, spec_base64_encode(png@), now, old(self).local_id@, old(self).local_name@),
            final(self).seen_messages@.contains(m.id@),
            pushed_onto(final(self).clipboard_history@, old(self).clipboard_history@),
            final(self).clipboard_history@[0].id == m.id,
            final(self).clipboard_history@[0].text@ == Seq::<char>::empty(),
            final(self).clipboard_history@[0].timestamp == now,
            final(self).clipboard_history@[0].content_type@ == "image"@,
            final(self).clipboard_history@[0].file_size == Some(png@.len() as u64),
            final(self).clipboard_history@[0].source@ == "本机"@,
            final(self).clipboard_history@[0].file_path is None,
            final(self).clipboard_history@[0].download_status is None,
            final(self).clipboard_history@[0].transfer_id is None,
            final(self).seen_messages@ == crate::dedup::seen_after_own(old(self).seen_messages@, m.id@),
            final(self).devices == old(self).devices,
            final(self).pending_transfers == old(self).pending_transfers,
            final(self).outgoing_files == old(self).outgoing_files,
            same_settings(*old(self), *final(self)),
            same_hashes(*old(self), *final(self)),
    {
        let data = base64_encode(png.as_slice());
        let m = self.own_message("clipboard", "image", data, now);
        self.remember(&m.id);
        let entry = ClipboardEntry::new_image(m.id.clone(), now, local_source(), png.len() as u64);
        push_history(&mut self.clipboard_history, entry);
        m
    }

    /// New local files to offer: the batch is kept under a new transfer id, and the
    /// `file-start` payload announcing it is returned.
    pub fn offer_files(&mut self, batch: BatchInfo) -> (d: FileStartData)
        requires
            old(self).wf(),
        ensures
            final(self).wf(),
            final(self).is_paused == old(self).is_paused,
            crate::codec::uuid_v4_text(d.transfer_id@),
            d.display_name == batch.display_name,
            d.files@ == batch.file_items@,
            d.total_size == batch.total_size,
            has_key(final(self).outgoing_files@, d.transfer_id@),
            forall|i: int| 0 <= i < final(self).outgoing_files@.len() && #[trigger] final(self).outgoing_files@[i].0 == d.transfer_id@
                ==> final(self).outgoing_files@[i].1.files == batch.outgoing_items@
                && final(self).outgoing_files@[i].1.total_size == batch.total_size,
            final(self).devices == old(self).devices,
            final(self).clipboard_history == old(self).clipboard_history,
            final(self).seen_messages == old(self).seen_messages,
            final(self).pending_transfers == old(self).pending_transfers,
            same_settings(*old(self), *final(self)),
            same_hashes(*old(self), *final(self)),
            ({
                let entry = (d.transfer_id@, crate::state::OutgoingView { files: batch.outgoing_items@, total_size: batch.total_size });
                &&& has_key(old(self).outgoing_files@, d.transfer_id@) ==> exists|i: int|
                    0 <= i < old(self).outgoing_files@.len() && old(self).outgoing_files@[i].0 == d.transfer_id@
                        && final(self).outgoing_files@ == old(self).outgoing_files@.update(i, entry)
                &&& !has_key(old(self).outgoing_files@, d.transfer_id@) ==> final(self).outgoing_files@
                    == old(self).outgoing_files@.push(entry)
            }),
    {
        let transfer_id = new_uuid();
        let f = OutgoingFile { files: batch.outgoing_items, total_size: batch.total_size };
        let ghost fv = f@;
        self.outgoing_files.insert(transfer_id.clone(), f);
        assert(has_key(self.outgoing_files@, transfer_id@)) by {
            if has_key(old(self).outgoing_files@, transfer_id@) {
                let i = choose|i: int| 0 <= i < old(self).outgoing_files@.len() && old(self).outgoing_files@[i].0 == transfer_id@
                    && self.outgoing_files@ == old(self).outgoing_files@.update(i, (transfer_id@, fv));
                assert(self.outgoing_files@[i].0 == transfer_id@);
            } else {
                assert(self.outgoing_files@[self.outgoing_files@.len() - 1].0 == transfer_id@);
            }
        }
        FileStartData {
            transfer_id,
            display_name: batch.display_name,
            files: batch.file_items,
            total_size: batch.total_size,
        }
    }

    /// A batch to announce, with its payload already encoded as `data_json`: a new
    /// `file-start`/`file` message, its id remembered, and a history entry from
    /// `本机` for the whole batch added.
    pub fn prepare_file_start(&mut self, data: &FileStartData, data_json: String, now: u64) -> (m: WsMessage)
        requires
            old(self).wf(),
        ensures
            final(self).wf(),
            own_message(m, "file-start"@, "file"@, data_json@, now, old(self).local_id@, old(self).local_name@),
            final(self).seen_messages@.contains(m.id@),
            pushed_onto(final(self).clipboard_history@, old(self).clipboard_history@),
            final(self).clipboard_history@[0].id == m.id,
            final(self).clipboard_history@[0].text == data.display_name,
            final(self).clipboard_history@[0].timestamp == now,
            final(self).clipboard_history@[0].content_type@ == "file"@,
            final(self).clipboard_history@[0].file_path is None,
            final(self).clipboard_history@[0].file_size == Some(data.total_size),
            final(self).clipboard_history@[0].download_status is None,
            final(self).clipboard_history@[0].transfer_id == Some(data.transfer_id),
            final(self).clipboard_history@[0].source@ == "本机"@,
            final(self).seen_messages@ == crate::dedup::seen_after_own(old(self).seen_messages@, m.id@),
            final(self).devices == old(self).devices,
            final(self).pending_transfers == old(self).pending_transfers,
            final(self).outgoing_files == old(self).outgoing_files,
            same_settings(*old(self), *final(self)),
            same_hashes(*old(self), *final(self)),
    {
        let m = self.own_message("file-start", "file", data_json, now);
        self.remember(&m.id);
        let entry = ClipboardEntry::new_file(
            m.id.clone(),
            data.display_name.clone(),
            now,
            local_source(),
            data.total_size,
            None,
            None,
            Some(data.transfer_id.clone()),
        );
        push_history(&mut self.clipboard_history, entry);
        m
    }

    /// The devices that a broadcast goes to: none while sync is paused, otherwise all
    /// that are not offline.
    pub fn broadcast_targets(&self) -> (r: Vec<DeviceInfo>)
        ensures
            self.is_paused ==> r@.len() == 0,
            !self.is_paused ==> r@ == self.devices@.filter(|d: DeviceInfo| d.status != DeviceStatus::Offline),
    {
        if self.is_paused {
            Vec::new()
        } else {
            self.devices.broadcast_targets()
        }
    }

    /// A message arrived: `None` if its id was handled before, otherwise its kind
    /// (and its id is remembered).
    pub fn accept_incoming(&mut self, msg: &WsMessage) -> (k: Option<MessageKind>)
        requires
            old(self).wf(),
        ensures
            final(self).wf(),
            old(self).seen_messages@.contains(msg.id@) ==> k is None && final(self).seen_messages@ == old(self).seen_messages@,
            !old(self).seen_messages@.contains(msg.id@) ==> k == Some(kind_of(msg.msg_type@, msg.content_type@))
                && final(self).seen_messages@ == crate::dedup::seen_after_insert(old(self).seen_messages@, msg.id@),
            final(self).seen_messages@ == crate::dedup::seen_after_arrival(old(self).seen_messages@, msg.id@),
            final(self).seen_messages@.contains(msg.id@),
            old(self).seen_messages@.contains(msg.id@) ==> *final(self) == *old(self),
            final(self).devices == old(self).devices,
            final(self).clipboard_history == old(self).clipboard_history,
            final(self).pending_transfers == old(self).pending_transfers,
            final(self).outgoing_files == old(self).outgoing_files,
            same_settings(*old(self), *final(self)),
            same_hashes(*old(self), *final(self)),
    {
        if self.seen_messages.check_and_insert(&msg.id) {
            Some(classify(msg))
        } else {
            None
        }
    }

    /// Remote text arrived: unless it came from this machine, its hash is recorded
    /// as the last remote text (so that the monitor does not send it back) and the
    /// text is returned to be written to the clipboard.
    pub fn accept_remote_text(&mut self, msg: &WsMessage) -> (r: bool)
        requires
            old(self).wf(),
        ensures
            final(self).wf(),
            final(self).is_paused == old(self).is_paused,
            r == (msg.sender_id@ != old(self).local_id@),
            r ==> final(self).last_remote_text_hash == spec_hash_text(msg.data@),
            !r ==> final(self).last_remote_text_hash == old(self).last_remote_text_hash,
            final(self).clipboard_history == old(self).clipboard_history,
            final(self).local_id == old(self).local_id,
            final(self).seen_messages == old(self).seen_messages,
            final(self).pending_transfers == old(self).pending_transfers,
            final(self).outgoing_files == old(self).outgoing_files,
            final(self).devices == old(self).devices,
            final(self).written_placeholder_hash == old(self).written_placeholder_hash,
            final(self).last_remote_image_hash == old(self).last_remote_image_hash,
            same_settings(*old(self), *final(self)),
    {
        if msg.sender_id == self.local_id {
            return false;
        }
        self.last_remote_text_hash = hash_text(&msg.data);
        true
    }

    /// Remote text was written to the clipboard: it enters the history under the
    /// sender's name.
    pub fn record_remote_text(&mut self, msg: &WsMessage)
        requires
            old(self).wf(),
        ensures
            final(self).wf(),
            pushed_onto(final(self).clipboard_history@, old(self).clipboard_history@),
            final(self).clipboard_history@[0].id == msg.id,
            final(self).clipboard_history@[0].text == msg.data,
            final(self).clipboard_history@[0].timestamp == msg.timestamp,
            final(self).clipboard_history@[0].source == msg.sender_name,
            final(self).clipboard_history@[0].content_type@ == "text"@,
            final(self).clipboard_history@[0].file_path is None,
            final(self).clipboard_history@[0].file_size is None,
            final(self).clipboard_history@[0].download_status is None,
            final(self).clipboard_history@[0].transfer_id is None,
            final(self).devices == old(self).devices,
            final(self).seen_messages == old(self).seen_messages,
            final(self).pending_transfers == old(self).pending_transfers,
            final(self).outgoing_files == old(self).outgoing_files,
            same_settings(*old(self), *final(self)),
            same_hashes(*old(self), *final(self)),
    {
        let entry = ClipboardEntry::new_text(msg.id.clone(), msg.data.clone(), msg.timestamp, msg.sender_name.clone());
        push_history(&mut self.clipboard_history, entry);
    }

    /// A remote image arrived: unless it came from this machine or its data is not
    /// Base64, the hash of the PNG bytes is recorded as the last remote image; the
    /// decoded pixels are returned with the PNG size, unless the bytes are no image.
    pub fn accept_remote_image(&mut self, msg: &WsMessage) -> (r: Option<(RgbaImage, u64)>)
        requires
            old(self).wf(),
        ensures
            final(self).wf(),
            final(self).is_paused == old(self).is_paused,
            msg.sender_id@ == old(self).local_id@ ==> r is None && final(self).last_remote_image_hash == old(self).last_remote_image_hash,
            msg.sender_id@ != old(self).local_id@ ==> match spec_base64_decode(msg.data@) {
                None => r is None && final(self).last_remote_image_hash == old(self).last_remote_image_hash,
                Some(png) => final(self).last_remote_image_hash == spec_hash_bytes(png) && match spec_decode_image(png) {
                    None => r is None,
                    Some((w, h, px)) => r matches Some((img, n)) && img.width == w && img.height == h
                        && img.pixels@ == px && n == png.len() as u64,
                },
            },
            final(self).clipboard_history == old(self).clipboard_history,
            final(self).seen_messages == old(self).seen_messages,
            final(self).pending_transfers == old(self).pending_transfers,
            final(self).outgoing_files == old(self).outgoing_files,
            final(self).devices == old(self).devices,
            final(self).written_placeholder_hash == old(self).written_placeholder_hash,
            final(self).last_remote_text_hash == old(self).last_remote_text_hash,
            same_settings(*old(self), *final(self)),
    {
        if msg.sender_id == self.local_id {
            return None;
        }
        let png = match base64_decode(msg.data.as_str()) {
            Some(b) => b,
            None => return None,
        };
        self.last_remote_image_hash = hash_bytes(&png);
        match decode_image(png.as_slice()) {
            Some(img) => Some((img, png.len() as u64)),
            None => None,
        }
    }

    /// A remote image was written to the clipboard: it enters the history under the
    /// sender's name with its PNG size.
    pub fn record_remote_image(&mut self, msg: &WsMessage, png_size: u64)
        requires
            old(self).wf(),
        ensures
            final(self).wf(),
            pushed_onto(final(self).clipboard_history@, old(self).clipboard_history@),
            final(self).clipboard_history@[0].id == msg.id,
            final(self).clipboard_history@[0].text@ == Seq::<char>::empty(),
            final(self).clipboard_history@[0].timestamp == msg.timestamp,
            final(self).clipboard_history@[0].source == msg.sender_name,
            final(self).clipboard_history@[0].content_type@ == "image"@,
            final(self).clipboard_history@[0].file_size == Some(png_size),
            final(self).clipboard_history@[0].file_path is None,
            final(self).clipboard_history@[0].download_status is None,
            final(self).clipboard_history@[0].transfer_id is None,
            final(self).devices == old(self).devices,
            final(self).seen_messages == old(self).seen_messages,
            final(self).pending_transfers == old(self).pending_transfers,
            final(self).outgoing_files == old(self).outgoing_files,
            same_settings(*old(self), *final(self)),
            same_hashes(*old(self), *final(self)),
    {
        let entry = ClipboardEntry::new_image(msg.id.clone(), msg.timestamp, msg.sender_name.clone(), png_size);
        push_history(&mut self.clipboard_history, entry);
    }

    /// A `file-start` arrived with its payload: ignored if sent by this machine or
    /// if the transfer is already known; otherwise accepted, noting whether it is a
    /// single top-level file.
    pub fn plan_file_start(&self, msg: &WsMessage, data: &FileStartData) -> (p: FileStartPlan)
        ensures
            msg.sender_id@ == self.local_id@ || has_key(self.pending_transfers@, data.transfer_id@) ==> p == FileStartPlan::Ignore,
            msg.sender_id@ != self.local_id@ && !has_key(self.pending_transfers@, data.transfer_id@) ==> p
                == (FileStartPlan::Accept { single_file: crate::protocol::single_top_file(data.files@) }),
    {
        if msg.sender_id == self.local_id {
            return FileStartPlan::Ignore;
        }
        if self.pending_transfers.contains(&data.transfer_id) {
            return FileStartPlan::Ignore;
        }
        FileStartPlan::Accept { single_file: crate::protocol::is_single_file(&data.files) }
    }

    /// Files this program put on the clipboard: their hash is recorded so that the
    /// monitor does not offer them.
    pub fn set_written_files(&mut self, paths: &Vec<String>)
        requires
            old(self).wf(),
        ensures
            final(self).wf(),
            final(self).is_paused == old(self).is_paused,
            final(self).written_placeholder_hash == paths_key(paths@),
            final(self).clipboard_history == old(self).clipboard_history,
            final(self).devices == old(self).devices,
            final(self).seen_messages == old(self).seen_messages,
            final(self).pending_transfers == old(self).pending_transfers,
            final(self).outgoing_files == old(self).outgoing_files,
            final(self).last_remote_text_hash == old(self).last_remote_text_hash,
            final(self).last_remote_image_hash == old(self).last_remote_image_hash,
            same_settings(*old(self), *final(self)),
    {
        self.written_placeholder_hash = hash_paths(paths);
    }

    /// New local files were found on the clipboard: the hash of the files that this
    /// program wrote is forgotten (set to 0), so that those files, copied again by
    /// the user, are offered.
    pub fn forget_written_files(&mut self)
        requires
            old(self).wf(),
        ensures
            final(self).wf(),
            final(self).written_placeholder_hash == 0,
            final(self).last_remote_text_hash == old(self).last_remote_text_hash,
            final(self).last_remote_image_hash == old(self).last_remote_image_hash,
            final(self).clipboard_history == old(self).clipboard_history,
            final(self).devices == old(self).devices,
            final(self).seen_messages == old(self).seen_messages,
            final(self).pending_transfers == old(self).pending_transfers,
            final(self).outgoing_files == old(self).outgoing_files,
            same_settings(*old(self), *final(self)),
    {
        self.written_placeholder_hash = 0;
    }

    /// New local text is about to be sent: both the hash of the files this program
    /// wrote and that of the text last received are forgotten (set to 0), so that
    /// neither blocks a later copy of the same content.
    pub fn forget_echo_hashes(&mut self)
        requires
            old(self).wf(),
        ensures
            final(self).wf(),
            final(self).written_placeholder_hash == 0,
            final(self).last_remote_text_hash == 0,
            final(self).last_remote_image_hash == old(self).last_remote_image_hash,
            final(self).clipboard_history == old(self).clipboard_history,
            final(self).devices == old(self).devices,
            final(self).seen_messages == old(self).seen_messages,
            final(self).pending_transfers == old(self).pending_transfers,
            final(self).outgoing_files == old(self).outgoing_files,
            same_settings(*old(self), *final(self)),
    {
        self.written_placeholder_hash = 0;
        self.last_remote_text_hash = 0;
    }

    /// An accepted `file-start`: the batch enters the history as pending, and the
    /// transfer is registered with the sender's address as known from discovery
    /// (empty and 0 if the sender is unknown), `temp_dir` as its directory, nothing
    /// received, and status `pending`.
    pub fn register_file_start(&mut self, msg: &WsMessage, data: &FileStartData, temp_dir: String)
        requires
            old(self).wf(),
        ensures
            final(self).wf(),
            pushed_onto(final(self).clipboard_history@, old(self).clipboard_history@),
            final(self).clipboard_history@[0].id == msg.id,
            final(self).clipboard_history@[0].text == data.display_name,
            final(self).clipboard_history@[0].timestamp == msg.timestamp,
            final(self).clipboard_history@[0].source == msg.sender_name,
            final(self).clipboard_history@[0].content_type@ == "file"@,
            final(self).clipboard_history@[0].file_path is None,
            final(self).clipboard_history@[0].file_size == Some(data.total_size),
            final(self).clipboard_history@[0].download_status matches Some(s) && s@ == "pending"@,
            final(self).clipboard_history@[0].transfer_id == Some(data.transfer_id),
            has_key(final(self).pending_transfers@, data.transfer_id@),
            forall|i: int| 0 <= i < final(self).pending_transfers@.len() && #[trigger] final(self).pending_transfers@[i].0 == data.transfer_id@ ==> {
                let t = final(self).pending_transfers@[i].1;
                &&& t.display_name == data.display_name@
                &&& t.files == data.files@
                &&& t.total_size == data.total_size
                &&& t.sender_id == msg.sender_id@
                &&& t.base_temp_dir == temp_dir@
                &&& t.received_bytes == 0
                &&& t.current_file_index == 0
                &&& t.status == "pending"@
                &&& if has_id(old(self).devices@, msg.sender_id@) {
                    exists|k: int| 0 <= k < old(self).devices@.len() && old(self).devices@[k].id@ == msg.sender_id@
                        && t.sender_ip == old(self).devices@[k].ip@ && t.sender_port == old(self).devices@[k].port
                } else {
                    t.sender_ip == Seq::<char>::empty() && t.sender_port == 0
                }
            },
            has_key(old(self).pending_transfers@, data.transfer_id@) ==> exists|i: int|
                0 <= i < old(self).pending_transfers@.len() && old(self).pending_transfers@[i].0 == data.transfer_id@
                    && final(self).pending_transfers@ == old(self).pending_transfers@.update(i, final(self).pending_transfers@[i]),
            !has_key(old(self).pending_transfers@, data.transfer_id@) ==> final(self).pending_transfers@.drop_last()
                == old(self).pending_transfers@ && final(self).pending_transfers@.len() == old(self).pending_transfers@.len() + 1,
            final(self).devices == old(self).devices,
            final(self).seen_messages == old(self).seen_messages,
            final(self).outgoing_files == old(self).outgoing_files,
            same_settings(*old(self), *final(self)),
            same_hashes(*old(self), *final(self)),
    {
        let entry = ClipboardEntry::new_file(
            msg.id.clone(),
            data.display_name.clone(),
            msg.timestamp,
            msg.sender_name.clone(),
            data.total_size,
            None,
            Some(String::from_str("pending")),
            Some(data.transfer_id.clone()),
        );
        push_history(&mut self.clipboard_history, entry);
        let (sender_ip, sender_port) = match self.devices.get(&msg.sender_id) {
            Some(d) => (d.ip, d.port),
            None => (String::new(), 0u16),
        };
        let t = PendingTransfer {
            display_name: data.display_name.clone(),
            files: copy_items(&data.files),
            total_size: data.total_size,
            sender_id: msg.sender_id.clone(),
            sender_ip,
            sender_port,
            base_temp_dir: temp_dir,
            received_bytes: 0,
            current_file_index: 0,
            status: String::from_str("pending"),
        };
        let ghost tv = t@;
        self.pending_transfers.insert(data.transfer_id.clone(), t);
        assert(has_key(self.pending_transfers@, data.transfer_id@)) by {
            if has_key(old(self).pending_transfers@, data.transfer_id@) {
                let i = choose|i: int| 0 <= i < old(self).pending_transfers@.len() && old(self).pending_transfers@[i].0 == data.transfer_id@
                    && self.pending_transfers@ == old(self).pending_transfers@.update(i, (data.transfer_id@, tv));
                assert(self.pending_transfers@[i].0 == data.transfer_id@);
            } else {
                assert(self.pending_transfers@[self.pending_transfers@.len() - 1].0 == data.transfer_id@);
            }
        }
    }

    /// A `file-request` arrived: the batch it names (by the message data) and the
    /// WebSocket URL of the requesting device, or `None` if either is unknown.
    pub fn file_request_target(&self, msg: &WsMessage) -> (r: Option<(OutgoingFile, String)>)
        requires
            self.wf(),
        ensures
            r is Some <==> has_key(self.outgoing_files@, msg.data@) && has_id(self.devices@, msg.sender_id@),
            r matches Some((f, addr)) ==> (exists|i: int| 0 <= i < self.outgoing_files@.len()
                && self.outgoing_files@[i].0 == msg.data@ && self.outgoing_files@[i].1 == f@)
                && (exists|k: int| 0 <= k < self.devices@.len() && self.devices@[k].id@ == msg.sender_id@
                && addr@ == "ws://"@ + host_port(self.devices@[k].ip@, self.devices@[k].port as nat)),
    {
        let f = match self.outgoing_files.get(&msg.data) {
            Some(f) => f,
            None => return None,
        };
        match self.devices.get(&msg.sender_id) {
            Some(d) => {
                let addr = ws_address(d.ip.as_str(), d.port);
                Some((f, addr))
            },
            None => None,
        }
    }

    /// A message of this machine about a file transfer (`file-chunk` or `file-end`),
    /// with its payload already encoded as `data_json`.
    pub fn transfer_message(&self, msg_type: &str, data_json: String, now: u64) -> (m: WsMessage)
        ensures
            own_message(m, msg_type@, "file"@, data_json@, now, self.local_id@, self.local_name@),
    {
        self.own_message(msg_type, "file", data_json, now)
    }

    /// A `file-chunk` arrived: its transfer id, file index (0 if missing) and Base64
    /// data as read from the payload.  Nothing happens if the id or the data is
    /// missing, the data is not Base64, or the transfer is unknown; otherwise the
    /// transfer counts the bytes, and the place to write them is returned if the
    /// index lies inside the batch.
    pub fn accept_chunk(&mut self, fields: &ChunkFields) -> (r: Option<ChunkWrite>)
        requires
            old(self).wf(),
        ensures
            final(self).wf(),
            final(self).clipboard_history == old(self).clipboard_history,
            final(self).devices == old(self).devices,
            final(self).seen_messages == old(self).seen_messages,
            final(self).outgoing_files == old(self).outgoing_files,
            same_settings(*old(self), *final(self)),
            same_hashes(*old(self), *final(self)),
            (fields.transfer_id is None || fields.data is None || spec_base64_decode(fields.data->0@) is None)
                ==> r is None && final(self).pending_transfers@ == old(self).pending_transfers@,
            fields.transfer_id matches Some(id) ==> fields.data matches Some(d) ==> spec_base64_decode(d@) matches Some(bytes) ==> {
                let index = match fields.file_index { Some(x) => x as usize, None => 0usize };
                &&& !has_key(old(self).pending_transfers@, id@) ==> r is None
                    && final(self).pending_transfers@ == old(self).pending_transfers@
                &&& has_key(old(self).pending_transfers@, id@) ==> exists|i: int|
                    0 <= i < old(self).pending_transfers@.len() && #[trigger] old(self).pending_transfers@[i].0 == id@ && ({
                        let t = old(self).pending_transfers@[i].1;
                        &&& final(self).pending_transfers@ == old(self).pending_transfers@.update(i, (id@, crate::state::PendingView {
                            received_bytes: t.received_bytes.wrapping_add(bytes.len() as u64),
                            current_file_index: index,
                            status: "downloading"@,
                            ..t
                        }))
                        &&& if index < t.files.len() {
                            r matches Some(w) && w.target.base_temp_dir@ == t.base_temp_dir
                                && w.target.relative_path == t.files[index as int].relative_path && w.bytes@ == bytes
                        } else {
                            r is None
                        }
                    })
            },
    {
        let id = match &fields.transfer_id {
            Some(id) => id,
            None => return None,
        };
        let index: usize = match fields.file_index {
            Some(x) => x as usize,
            None => 0,
        };
        let data = match &fields.data {
            Some(d) => d,
            None => return None,
        };
        let bytes = match base64_decode(data.as_str()) {
            Some(b) => b,
            None => return None,
        };
        match self.pending_transfers.record_chunk(id, index, bytes.len() as u64) {
            Some(target) => Some(ChunkWrite { target, bytes }),
            None => None,
        }
    }

    /// The end of a batch arrived for transfer `id`: it is marked done and its
    /// temporary directory, files, size and name are returned (see
    /// `PendingTransfers::finish`).
    pub fn finish_transfer(&mut self, id: &String) -> (r: Option<FinishedTransfer>)
        requires
            old(self).wf(),
        ensures
            final(self).wf(),
            final(self).is_paused == old(self).is_paused,
            (r is None) == !has_key(old(self).pending_transfers@, id@),
            !has_key(old(self).pending_transfers@, id@) ==> final(self).pending_transfers@ == old(self).pending_transfers@,
            has_key(old(self).pending_transfers@, id@) ==> exists|i: int|
                0 <= i < old(self).pending_transfers@.len() && #[trigger] old(self).pending_transfers@[i].0 == id@ && ({
                    let t = old(self).pending_transfers@[i].1;
                    &&& final(self).pending_transfers@ == old(self).pending_transfers@.update(i, (id@, crate::state::PendingView { status: "done"@, ..t }))
                    &&& r matches Some(f) && f.base_temp_dir@ == t.base_temp_dir && f.files@ == t.files
                        && f.total_size == t.total_size && f.display_name@ == t.display_name
                }),
            final(self).clipboard_history == old(self).clipboard_history,
            final(self).devices == old(self).devices,
            final(self).seen_messages == old(self).seen_messages,
            final(self).outgoing_files == old(self).outgoing_files,
            same_hashes(*old(self), *final(self)),
            same_settings(*old(self), *final(self)),
    {
        self.pending_transfers.finish(id)
    }

    /// A received batch is saved at `location`: the first history entry of the
    /// transfer is marked done and points there.
    pub fn complete_download(&mut self, id: &String, location: String)
        requires
            old(self).wf(),
        ensures
            final(self).wf(),
            final(self).is_paused == old(self).is_paused,
            final(self).clipboard_history@.len() == old(self).clipboard_history@.len(),
            (forall|j: int| 0 <= j < old(self).clipboard_history@.len() ==> !entry_has_transfer(#[trigger] old(self).clipboard_history@[j], id@))
                ==> final(self).clipboard_history@ == old(self).clipboard_history@,
            (exists|j: int| 0 <= j < old(self).clipboard_history@.len() && entry_has_transfer(#[trigger] old(self).clipboard_history@[j], id@))
                ==> exists|i: int| 0 <= i < old(self).clipboard_history@.len()
                && entry_has_transfer(old(self).clipboard_history@[i], id@)
                && (forall|j: int| 0 <= j < i ==> !entry_has_transfer(#[trigger] old(self).clipboard_history@[j], id@))
                && final(self).clipboard_history@ == old(self).clipboard_history@.update(i, final(self).clipboard_history@[i])
                && final(self).clipboard_history@[i] == (ClipboardEntry {
                    download_status: final(self).clipboard_history@[i].download_status,
                    file_path: Some(location),
                    ..old(self).clipboard_history@[i]
                })
                && (final(self).clipboard_history@[i].download_status matches Some(s) && s@ == "done"@),
            final(self).pending_transfers == old(self).pending_transfers,
            final(self).devices == old(self).devices,
            final(self).seen_messages == old(self).seen_messages,
            final(self).outgoing_files == old(self).outgoing_files,
            same_hashes(*old(self), *final(self)),
            same_settings(*old(self), *final(self)),
    {
        match find_transfer_entry(&self.clipboard_history, id) {
            Some(i) => {
                let ghost loc = location;
                let mut e = self.clipboard_history[i].duplicate();
                e.download_status = Some(String::from_str("done"));
                e.file_path = Some(location);
                self.clipboard_history.set(i, e);
                let ghost h = self.clipboard_history@;
                let ghost o = old(self).clipboard_history@;
                assert(h == o.update(i as int, h[i as int]));
                assert(h[i as int] == (ClipboardEntry { download_status: h[i as int].download_status, file_path: Some(loc), ..o[i as int] }));
                assert(entry_has_transfer(o[i as int], id@));
            },
            None => {},
        }
    }

    /// The user asks to download transfer `id` at time `now`.  Refused (with the
    /// message of `DownloadRefusal`) if the transfer is unknown, downloading or done;
    /// otherwise the transfer and the first history entry of it are marked
    /// downloading, and a `file-request` message from this machine naming the
    /// transfer is returned (its id remembered) with the sender's id and address.
    pub fn begin_file_request(&mut self, id: &String, now: u64) -> (r: Result<FileRequest, String>)
        requires
            old(self).wf(),
        ensures
            final(self).wf(),
            !has_key(old(self).pending_transfers@, id@) ==> (r matches Err(e) && e@ == "未找到对应的文件传输记录"@)
                && final(self).pending_transfers@ == old(self).pending_transfers@
                && final(self).clipboard_history == old(self).clipboard_history,
            has_key(old(self).pending_transfers@, id@) ==> exists|i: int|
                0 <= i < old(self).pending_transfers@.len() && #[trigger] old(self).pending_transfers@[i].0 == id@ && ({
                    let t = old(self).pending_transfers@[i].1;
                    if t.status == "downloading"@ {
                        (r matches Err(e) && e@ == "该文件正在下载中"@) && final(self).pending_transfers@
                            == old(self).pending_transfers@ && final(self).clipboard_history == old(self).clipboard_history
                    } else if t.status == "done"@ {
                        (r matches Err(e) && e@ == "该文件已下载完成"@) && final(self).pending_transfers@
                            == old(self).pending_transfers@ && final(self).clipboard_history == old(self).clipboard_history
                    } else {
                        &&& final(self).pending_transfers@ == old(self).pending_transfers@.update(i, (id@, crate::state::PendingView { status: "downloading"@, ..t }))
                        &&& r matches Ok(req)
                        &&& own_message(req.message, "file-request"@, "file"@, id@, now, old(self).local_id@, old(self).local_name@)
                        &&& final(self).seen_messages@.contains(req.message.id@)
                        &&& req.sender_id@ == t.sender_id && req.sender_ip@ == t.sender_ip && req.sender_port == t.sender_port
                        &&& final(self).clipboard_history@.len() == old(self).clipboard_history@.len()
                        &&& forall|j: int| 0 <= j < old(self).clipboard_history@.len() ==> {
                            let e = old(self).clipboard_history@[j];
                            let f = #[trigger] final(self).clipboard_history@[j];
                            if entry_has_transfer(e, id@) && forall|k: int| 0 <= k < j ==> !entry_has_transfer(#[trigger] old(self).clipboard_history@[k], id@) {
                                f == (ClipboardEntry { download_status: f.download_status, ..e })
                                    && (f.download_status matches Some(s) && s@ == "downloading"@)
                            } else {
                                f == e
                            }
                        }
                    }
                }),
            r is Err ==> final(self).seen_messages == old(self).seen_messages,
            r matches Ok(req) ==> final(self).seen_messages@ == crate::dedup::seen_after_own(old(self).seen_messages@, req.message.id@),
            final(self).devices == old(self).devices,
            final(self).outgoing_files == old(self).outgoing_files,
            same_settings(*old(self), *final(self)),
            same_hashes(*old(self), *final(self)),
    {
        let (sender_id, sender_ip, sender_port) = match self.pending_transfers.begin_download(id) {
            Ok(x) => x,
            Err(e) => return Err(e.message()),
        };
        let ghost h0 = self.clipboard_history@;
        match find_transfer_entry(&self.clipboard_history, id) {
            Some(i) => {
                let mut e = self.clipboard_history[i].duplicate();
                e.download_status = Some(String::from_str("downloading"));
                self.clipboard_history.set(i, e);
                assert forall|j: int| 0 <= j < h0.len() implies {
                    let e = h0[j];
                    let f = #[trigger] self.clipboard_history@[j];
                    if entry_has_transfer(e, id@) && forall|k: int| 0 <= k < j ==> !entry_has_transfer(#[trigger] h0[k], id@) {
                        f == (ClipboardEntry { download_status: f.download_status, ..e })
                            && (f.download_status matches Some(s) && s@ == "downloading"@)
                    } else {
                        f == e
                    }
                } by {
                    if j != i as int && entry_has_transfer(h0[j], id@) && forall|k: int| 0 <= k < j ==> !entry_has_transfer(#[trigger] h0[k], id@) {
                        if j < i as int {
                        } else {
                            assert(!entry_has_transfer(h0[i as int], id@));
                        }
                    }
                }
            },
            None => {},
        }
        let message = self.own_message("file-request", "file", id.clone(), now);
        self.remember(&message.id);
        Ok(FileRequest { message, sender_id, sender_ip, sender_port })
    }

    /// A discovery announcement arrived at time `now`: ignored (`None`) while sync is
    /// paused or when it is this machine's own; otherwise the device is recorded as
    /// connected, and whether it is new or back from offline is returned.
    pub fn on_discovery(&mut self, info: &BroadcastInfo, now: u64) -> (r: Option<bool>)
        requires
            old(self).wf(),
        ensures
            final(self).wf(),
            old(self).is_paused || info.id@ == old(self).local_id@ ==> r is None && final(self).devices@ == old(self).devices@,
            !old(self).is_paused && info.id@ != old(self).local_id@ ==> r is Some && ({
                let notify = r->0;
                &&& has_id(old(self).devices@, info.id@) ==> exists|i: int|
                    0 <= i < old(self).devices@.len() && old(self).devices@[i].id@ == info.id@ && final(self).devices@
                        == old(self).devices@.update(i, crate::devices::discovered(*info, now)) && notify == (old(self).devices@[i].status
                        == DeviceStatus::Offline)
                &&& !has_id(old(self).devices@, info.id@) ==> final(self).devices@ == old(self).devices@.push(crate::devices::discovered(*info, now))
                    && notify
                &&& exists|i: int| 0 <= i < final(self).devices@.len()
                    && #[trigger] crate::devices::records_announcement(final(self).devices@[i], *info, now)
            }),
            final(self).clipboard_history == old(self).clipboard_history,
            final(self).is_paused == old(self).is_paused,
            final(self).local_id == old(self).local_id,
            final(self).seen_messages == old(self).seen_messages,
            final(self).pending_transfers == old(self).pending_transfers,
            final(self).outgoing_files == old(self).outgoing_files,
            same_hashes(*old(self), *final(self)),
            same_settings(*old(self), *final(self)),
    {
        if self.is_paused || info.id == self.local_id {
            return None;
        }
        Some(self.devices.upsert_discovered(info, now))
    }

    /// The discovery announcements to send at time `now`, one per interface given:
    /// none while sync is paused.  Each names this machine, the interface's address
    /// and the WebSocket port, is sent from `ip:0` to `broadcast:37020`.
    pub fn announcements(&self, ifaces: &Vec<NetworkInterface>, now: u64) -> (r: Vec<Announcement>)
        ensures
            self.is_paused ==> r@.len() == 0,
            !self.is_paused ==> r@.len() == ifaces@.len() && forall|i: int| 0 <= i < ifaces@.len() ==> {
                let a = #[trigger] r@[i];
                &&& a.info.id == self.local_id
                &&& a.info.name == self.local_name
                &&& a.info.ip == ifaces@[i].ip
                &&& a.info.port == self.local_port
                &&& a.info.timestamp == now
                &&& a.bind_addr@ == host_port(ifaces@[i].ip@, 0)
                &&& a.target@ == host_port(ifaces@[i].broadcast@, BROADCAST_PORT as nat)
            },
    {
        let mut out: Vec<Announcement> = Vec::new();
        if self.is_paused {
            return out;
        }
        let mut j: usize = 0;
        while j < ifaces.len()
            invariant
                j <= ifaces@.len(),
                out@.len() == j,
                forall|i: int| 0 <= i < j ==> {
                    let a = #[trigger] out@[i];
                    &&& a.info.id == self.local_id
                    &&& a.info.name == self.local_name
                    &&& a.info.ip == ifaces@[i].ip
                    &&& a.info.port == self.local_port
                    &&& a.info.timestamp == now
                    &&& a.bind_addr@ == host_port(ifaces@[i].ip@, 0)
                    &&& a.target@ == host_port(ifaces@[i].broadcast@, BROADCAST_PORT as nat)
                },
            decreases ifaces@.len() - j,
        {
            let iface = &ifaces[j];
            let info = BroadcastInfo {
                id: self.local_id.clone(),
                name: self.local_name.clone(),
                ip: iface.ip.clone(),
                port: self.local_port,
                timestamp: now,
            };
            let bind_addr = format_host_port(iface.ip.as_str(), 0);
            let target = format_host_port(iface.broadcast.as_str(), BROADCAST_PORT as u64);
            out.push(Announcement { info, bind_addr, target });
            j = j + 1;
        }
        out
    }

    /// The periodic clean-up at time `now` (see `DeviceRegistry::expire`).
    pub fn expire_devices(&mut self, now: u64) -> (changed: bool)
        requires
            old(self).wf(),
            forall|i: int| 0 <= i < old(self).devices@.len() ==> #[trigger] old(self).devices@[i].last_seen <= now,
        ensures
            final(self).wf(),
            final(self).devices@ == old(self).devices@.map_values(|d: DeviceInfo| crate::devices::after_expiry(d, now)),
            changed == exists|i: int|
                0 <= i < old(self).devices@.len() && crate::devices::timed_out(#[trigger] old(self).devices@[i], now)
                    && old(self).devices@[i].status != DeviceStatus::Offline,
            final(self).clipboard_history == old(self).clipboard_history,
            final(self).is_paused == old(self).is_paused,
            final(self).seen_messages == old(self).seen_messages,
            final(self).pending_transfers == old(self).pending_transfers,
            final(self).outgoing_files == old(self).outgoing_files,
            same_hashes(*old(self), *final(self)),
            same_settings(*old(self), *final(self)),
    {
        self.devices.expire(now)
    }

    /// The devices to connect to: none while sync is paused, otherwise those offline
    /// or still connecting and not in `connecting`.
    pub fn reconnect_candidates(&self, connecting: &Vec<String>) -> (r: Vec<DeviceInfo>)
        ensures
            self.is_paused ==> r@.len() == 0,
            !self.is_paused ==> r@ == self.devices@.filter(|d: DeviceInfo| crate::devices::wants_connection(d, connecting@.map_values(|s: String| s@))),
    {
        if self.is_paused {
            Vec::new()
        } else {
            self.devices.reconnect_candidates(connecting)
        }
    }

    /// Pauses sync: every device is marked offline.
    pub fn disconnect_sync(&mut self)
        requires
            old(self).wf(),
        ensures
            final(self).wf(),
            final(self).is_paused,
            final(self).devices@ == old(self).devices@.map_values(|d: DeviceInfo| crate::devices::with_status(d, DeviceStatus::Offline)),
            final(self).clipboard_history == old(self).clipboard_history,
            final(self).seen_messages == old(self).seen_messages,
            final(self).pending_transfers == old(self).pending_transfers,
            final(self).outgoing_files == old(self).outgoing_files,
            same_hashes(*old(self), *final(self)),
            same_identity(*old(self), *final(self)),
            final(self).download_dir == old(self).download_dir,
            final(self).shortcut == old(self).shortcut,
            final(self).autostart == old(self).autostart,
    {
        self.is_paused = true;
        self.devices.mark_all_offline();
    }

    /// Resumes sync.
    pub fn connect_sync(&mut self)
        requires
            old(self).wf(),
        ensures
            final(self).wf(),
            !final(self).is_paused,
            final(self).devices@ == old(self).devices@,
            final(self).clipboard_history == old(self).clipboard_history,
            final(self).seen_messages == old(self).seen_messages,
            final(self).pending_transfers == old(self).pending_transfers,
            final(self).outgoing_files == old(self).outgoing_files,
            same_hashes(*old(self), *final(self)),
            same_identity(*old(self), *final(self)),
            final(self).download_dir == old(self).download_dir,
            final(self).shortcut == old(self).shortcut,
            final(self).autostart == old(self).autostart,
    {
        self.is_paused = false;
    }

    /// Whether sync runs (is not paused).
    pub fn get_sync_status(&self) -> (r: bool)
        ensures
            r == !self.is_paused,
    {
        !self.is_paused
    }

    /// Forgets all transfers to receive (the cache files are removed by the caller).
    pub fn clear_pending(&mut self)
        requires
            old(self).wf(),
        ensures
            final(self).wf(),
            final(self).is_paused == old(self).is_paused,
            final(self).pending_transfers@.len() == 0,
            final(self).clipboard_history == old(self).clipboard_history,
            final(self).seen_messages == old(self).seen_messages,
            final(self).outgoing_files == old(self).outgoing_files,
            final(self).devices == old(self).devices,
            same_hashes(*old(self), *final(self)),
            same_settings(*old(self), *final(self)),
    {
        self.pending_transfers.clear();
    }

    /// Empties the clipboard history.
    pub fn clear_history(&mut self)
        requires
            old(self).wf(),
        ensures
            final(self).wf(),
            final(self).is_paused == old(self).is_paused,
            final(self).clipboard_history@.len() == 0,
            final(self).devices == old(self).devices,
            final(self).seen_messages == old(self).seen_messages,
            final(self).pending_transfers == old(self).pending_transfers,
            final(self).outgoing_files == old(self).outgoing_files,
            same_hashes(*old(self), *final(self)),
            same_settings(*old(self), *final(self)),
    {
        self.clipboard_history.clear();
    }

    /// A copy of the clipboard history, newest first.
    pub fn get_clipboard_history(&self) -> (r: Vec<ClipboardEntry>)
        ensures
            r@ == self.clipboard_history@,
    {
        let mut out: Vec<ClipboardEntry> = Vec::new();
        let mut j: usize = 0;
        while j < self.clipboard_history.len()
            invariant
                j <= self.clipboard_history@.len(),
                out@ == self.clipboard_history@.subrange(0, j as int),
            decreases self.clipboard_history@.len() - j,
        {
            out.push(self.clipboard_history[j].duplicate());
            j = j + 1;
            assert(out@ =~= self.clipboard_history@.subrange(0, j as int));
        }
        assert(self.clipboard_history@.subrange(0, self.clipboard_history@.len() as int) =~= self.clipboard_history@);
        out
    }

    /// The settings as they stand now.
    pub fn current_settings(&self) -> (r: AppSettings)
        ensures
            r.download_dir == self.download_dir,
            r.shortcut == self.shortcut,
            r.autostart == self.autostart,
    {
        AppSettings {
            download_dir: self.download_dir.clone(),
            shortcut: self.shortcut.clone(),
            autostart: self.autostart,
        }
    }

    /// Sets the download directory; returns the settings to store.
    pub fn set_download_dir(&mut self, path: String) -> (r: AppSettings)
        requires
            old(self).wf(),
        ensures
            final(self).wf(),
            final(self).is_paused == old(self).is_paused,
            final(self).download_dir == path,
            r.download_dir == path,
            r.shortcut == old(self).shortcut,
            r.autostart == old(self).autostart,
            final(self).shortcut == old(self).shortcut,
            final(self).autostart == old(self).autostart,
            final(self).devices == old(self).devices,
            final(self).clipboard_history == old(self).clipboard_history,
            final(self).seen_messages == old(self).seen_messages,
            final(self).pending_transfers == old(self).pending_transfers,
            final(self).outgoing_files == old(self).outgoing_files,
            same_hashes(*old(self), *final(self)),
            same_identity(*old(self), *final(self)),
    {
        self.download_dir = path;
        self.current_settings()
    }

    /// Sets the global shortcut; returns the settings to store.
    pub fn set_shortcut(&mut self, shortcut: String) -> (r: AppSettings)
        requires
            old(self).wf(),
        ensures
            final(self).wf(),
            final(self).is_paused == old(self).is_paused,
            final(self).shortcut == shortcut,
            r.shortcut == shortcut,
            r.download_dir == old(self).download_dir,
            r.autostart == old(self).autostart,
            final(self).download_dir == old(self).download_dir,
            final(self).autostart == old(self).autostart,
            final(self).devices == old(self).devices,
            final(self).clipboard_history == old(self).clipboard_history,
            final(self).seen_messages == old(self).seen_messages,
            final(self).pending_transfers == old(self).pending_transfers,
            final(self).outgoing_files == old(self).outgoing_files,
            same_hashes(*old(self), *final(self)),
            same_identity(*old(self), *final(self)),
    {
        self.shortcut = shortcut;
        self.current_settings()
    }

    /// Sets autostart; returns the settings to store.
    pub fn set_autostart(&mut self, enabled: bool) -> (r: AppSettings)
        requires
            old(self).wf(),
        ensures
            final(self).wf(),
            final(self).is_paused == old(self).is_paused,
            final(self).autostart == enabled,
            r.autostart == enabled,
            r.download_dir == old(self).download_dir,
            r.shortcut == old(self).shortcut,
            final(self).download_dir == old(self).download_dir,
            final(self).shortcut == old(self).shortcut,
            final(self).devices == old(self).devices,
            final(self).clipboard_history == old(self).clipboard_history,
            final(self).seen_messages == old(self).seen_messages,
            final(self).pending_transfers == old(self).pending_transfers,
            final(self).outgoing_files == old(self).outgoing_files,
            same_hashes(*old(self), *final(self)),
            same_identity(*old(self), *final(self)),
    {
        self.autostart = enabled;
        self.current_settings()
    }
}

} // verus!
