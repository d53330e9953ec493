//! What the window's commands report, and the per-connection state of the
//! WebSocket server.

use vstd::prelude::*;
use crate::codec::spec_base64_encode;
use crate::devices::count_connected;
use crate::network::NetworkInterface;
use crate::protocol::is_file_content;
use crate::state::{DeviceInfo, DeviceStatus, WsMessage};
use crate::sync::{AppState, ChunkPayload};

verus! {

/// The connection status shown in the window.
#[derive(Clone, Debug)]
pub struct StatusInfo {
    pub local_ips: Vec<String>,
    pub local_name: String,
    pub local_port: u16,
    pub interface_names: Vec<String>,
    pub connected_devices: usize,
    pub total_devices: usize,
}

/// The settings shown in the window.
#[derive(Clone, Debug)]
pub struct SettingsInfo {
    pub download_dir: String,
    pub cache_size: u64,
    pub shortcut: String,
    pub autostart: bool,
}

impl AppState {
    /// The known devices.
    pub fn get_devices(&self) -> (r: Vec<DeviceInfo>)
        ensures
            r@ == self.devices@,
    {
        self.devices.list()
    }

    /// The status: addresses and names of the given (physical) interfaces, this
    /// machine's name and port, and how many devices are connected and known.
    pub fn get_status(&self, physical: &Vec<NetworkInterface>) -> (r: StatusInfo)
        ensures
            r.local_ips@.map_values(|s: String| s@) == physical@.map_values(|i: NetworkInterface| i.ip@),
            r.interface_names@.map_values(|s: String| s@) == physical@.map_values(|i: NetworkInterface| i.name@),
            r.local_name == self.local_name,
            r.local_port == self.local_port,
            r.connected_devices == count_connected(self.devices@),
            r.total_devices == self.devices@.len(),
    {
        let mut ips: Vec<String> = Vec::new();
        let mut names: Vec<String> = Vec::new();
        let mut j: usize = 0;
        while j < physical.len()
            invariant
                j <= physical@.len(),
                ips@.len() == j,
                names@.len() == j,
                forall|k: int| 0 <= k < j ==> #[trigger] ips@[k]@ == physical@[k].ip@,
                forall|k: int| 0 <= k < j ==> #[trigger] names@[k]@ == physical@[k].name@,
            decreases physical@.len() - j,
        {
            ips.push(physical[j].ip.clone());
            names.push(physical[j].name.clone());
            j = j + 1;
        }
        assert(ips@.map_values(|s: String| s@) =~= physical@.map_values(|i: NetworkInterface| i.ip@));
        assert(names@.map_values(|s: String| s@) =~= physical@.map_values(|i: NetworkInterface| i.name@));
        StatusInfo {
            local_ips: ips,
            local_name: self.local_name.clone(),
            local_port: self.local_port,
            interface_names: names,
            connected_devices: self.devices.connected_count(),
            total_devices: self.devices.len(),
        }
    }

    /// The settings, with the cache size measured by the caller.
    pub fn get_settings(&self, cache_size: u64) -> (r: SettingsInfo)
        ensures
            r.download_dir == self.download_dir,
            r.cache_size == cache_size,
            r.shortcut == self.shortcut,
            r.autostart == self.autostart,
    {
        SettingsInfo {
            download_dir: self.download_dir.clone(),
            cache_size,
            shortcut: self.shortcut.clone(),
            autostart: self.autostart,
        }
    }

    /// Sets the status of device `id`; returns whether it is known.
    pub fn set_device_status(&mut self, id: &String, status: DeviceStatus) -> (found: bool)
        requires
            old(self).wf(),
        ensures
            final(self).wf(),
            found == crate::devices::has_id(old(self).devices@, id@),
            found ==> exists|i: int|
                0 <= i < old(self).devices@.len() && old(self).devices@[i].id@ == id@ && final(self).devices@
                    == old(self).devices@.update(i, crate::devices::with_status(old(self).devices@[i], status)),
            !found ==> final(self).devices@ == old(self).devices@,
            final(self).clipboard_history == old(self).clipboard_history,
            final(self).is_paused == old(self).is_paused,
            final(self).seen_messages == old(self).seen_messages,
            final(self).pending_transfers == old(self).pending_transfers,
            final(self).outgoing_files == old(self).outgoing_files,
            crate::sync::same_settings(*old(self), *final(self)),
            crate::sync::same_hashes(*old(self), *final(self)),
    {
        self.devices.set_status(id, status)
    }
}

/// The content of a `file-chunk`: the transfer, the file's index in the batch, the
/// offset of the chunk in the file, and the bytes in Base64.
pub fn make_chunk_payload(transfer_id: &String, file_index: u64, offset: u64, bytes: &[u8]) -> (r: ChunkPayload)
    requires
        4 * ((bytes@.len() + 2) / 3) <= usize::MAX,
    ensures
        r.transfer_id == *transfer_id,
        r.file_index == file_index,
        r.offset == offset,
        r.data@ == spec_base64_encode(bytes@),
{
    ChunkPayload {
        transfer_id: transfer_id.clone(),
        file_index,
        offset,
        data: crate::codec::base64_encode(bytes),
    }
}

/// Whether a message carries file content: a chunk or the end of a batch.
pub open spec fn file_content(m: WsMessage) -> bool {
    m.msg_type@ == "file-chunk"@ || m.msg_type@ == "file-end"@
}

/// What a connection remembers after one more message: the peer (set by the first
/// message) and whether file content went over it.
pub open spec fn session_step(s: (Option<String>, bool), m: WsMessage) -> (Option<String>, bool) {
    (if s.0 is None { Some(m.sender_id) } else { s.0 }, s.1 || file_content(m))
}

/// What a new connection remembers after the messages `msgs`, in order.
pub open spec fn session_after(msgs: Seq<WsMessage>) -> (Option<String>, bool)
    decreases msgs.len(),
{
    if msgs.len() == 0 {
        (None, false)
    } else {
        session_step(session_after(msgs.drop_last()), msgs.last())
    }
}

/// The device to mark offline when a connection that remembers `s` closes.
pub open spec fn close_outcome(s: (Option<String>, bool)) -> Option<String> {
    if s.1 { None } else { s.0 }
}

/// Over a whole incoming connection: its first message names the peer (marked
/// connected then), and when it closes that peer is marked offline, unless some
/// message on it carried file content; a connection without messages marks no one.
pub proof fn lemma_connection_marks_its_first_sender(msgs: Seq<WsMessage>)
    ensures
        msgs.len() == 0 ==> close_outcome(session_after(msgs)) is None,
        msgs.len() > 0 ==> session_after(msgs).0 == Some(msgs[0].sender_id),
        msgs.len() > 0 ==> close_outcome(session_after(msgs)) == if exists|i: int| 0 <= i < msgs.len() && #[trigger] file_content(msgs[i]) {
            None
        } else {
            Some(msgs[0].sender_id)
        },
    decreases msgs.len(),
{
    if msgs.len() > 1 {
        let init = msgs.drop_last();
        lemma_connection_marks_its_first_sender(init);
        assert(init[0] == msgs[0]);
        if exists|i: int| 0 <= i < init.len() && #[trigger] file_content(init[i]) {
            let i = choose|i: int| 0 <= i < init.len() && #[trigger] file_content(init[i]);
            assert(file_content(msgs[i]));
        }
        if exists|i: int| 0 <= i < msgs.len() && #[trigger] file_content(msgs[i]) {
            let i = choose|i: int| 0 <= i < msgs.len() && #[trigger] file_content(msgs[i]);
            if i < msgs.len() - 1 {
                assert(file_content(init[i]));
            }
        }
    } else if msgs.len() == 1 {
        assert(msgs.drop_last().len() == 0);
        assert(session_after(msgs.drop_last()) == (None::<String>, false));
    }
}

/// What the WebSocket server remembers of one incoming connection.
pub struct ServerSession {
    /// The device that sent the first message, once one arrived.
    pub peer_id: Option<String>,
    /// Whether the connection carried file content (chunks or a batch end).
    pub file_transfer_only: bool,
}

impl ServerSession {
    /// A connection that has carried nothing yet.
    pub fn new() -> (r: Self)
        ensures
            r.peer_id is None,
            !r.file_transfer_only,
    {
        ServerSession { peer_id: None, file_transfer_only: false }
    }

    /// A message arrived on the connection.  The first one names the peer, which is
    /// returned so that it can be marked connected; file content marks the
    /// connection as a file transfer.
    pub fn on_message(&mut self, msg: &WsMessage) -> (first_peer: Option<String>)
        ensures
            old(self).peer_id is None ==> first_peer == Some(msg.sender_id) && final(self).peer_id == Some(msg.sender_id),
            old(self).peer_id is Some ==> first_peer is None && final(self).peer_id == old(self).peer_id,
            final(self).file_transfer_only == (old(self).file_transfer_only || msg.msg_type@ == "file-chunk"@
                || msg.msg_type@ == "file-end"@),
            (final(self).peer_id, final(self).file_transfer_only) == session_step((old(self).peer_id, old(self).file_transfer_only), *msg),
    {
        let first = if self.peer_id.is_none() {
            self.peer_id = Some(msg.sender_id.clone());
            Some(msg.sender_id.clone())
        } else {
            None
        };
        if is_file_content(msg) {
            self.file_transfer_only = true;
        }
        first
    }

    /// The connection closed: the peer to mark offline, unless the connection only
    /// carried a file transfer or no message arrived.
    pub fn on_close(&self) -> (r: Option<String>)
        ensures
            self.file_transfer_only ==> r is None,
            !self.file_transfer_only ==> r == self.peer_id,
            r == close_outcome((self.peer_id, self.file_transfer_only)),
    {
        if self.file_transfer_only {
            None
        } else {
            match &self.peer_id {
                Some(p) => Some(p.clone()),
                None => None,
            }
        }
    }
}

} // verus!
