use clip_sync::dedup::{SeenMessages, SEEN_DROP, SEEN_LIMIT};
use clip_sync::devices::DeviceRegistry;
use clip_sync::state::{push_history, BroadcastInfo, ClipboardEntry, DeviceStatus, FileItemInfo, PendingTransfer, HISTORY_LIMIT};
use clip_sync::transfers::{DownloadRefusal, PendingTransfers};

fn announce(id: &str, ip: &str) -> BroadcastInfo {
    BroadcastInfo { id: id.to_string(), name: format!("host-{}", id), ip: ip.to_string(), port: 37021, timestamp: 0 }
}

#[test]
fn entries_are_built_with_their_kind() {
    let t = ClipboardEntry::new_text("m1".to_string(), "hello".to_string(), 5, "本机".to_string());
    assert_eq!(t.content_type, "text");
    assert_eq!(t.text, "hello");
    assert!(t.file_size.is_none() && t.transfer_id.is_none());
    let f = ClipboardEntry::new_file(
        "m2".to_string(),
        "3个文件".to_string(),
        6,
        "pc".to_string(),
        42,
        None,
        Some("pending".to_string()),
        Some("t1".to_string()),
    );
    assert_eq!(f.content_type, "file");
    assert_eq!(f.file_size, Some(42));
    assert_eq!(f.download_status.as_deref(), Some("pending"));
    let i = ClipboardEntry::new_image("m3".to_string(), 7, "pc".to_string(), 99);
    assert_eq!(i.content_type, "image");
    assert_eq!(i.file_size, Some(99));
    assert_eq!(i.text, "");
}

#[test]
fn history_keeps_the_newest_twenty() {
    let mut h: Vec<ClipboardEntry> = Vec::new();
    for k in 0..25u64 {
        push_history(&mut h, ClipboardEntry::new_text(format!("m{}", k), format!("t{}", k), k, "本机".to_string()));
        assert!(h.len() <= HISTORY_LIMIT);
    }
    assert_eq!(h.len(), 20);
    assert_eq!(h[0].id, "m24");
    assert_eq!(h[19].id, "m5");
}

#[test]
fn discovery_adds_and_refreshes_devices() {
    let mut d = DeviceRegistry::new();
    assert!(d.upsert_discovered(&announce("a", "10.0.0.2"), 100));
    assert!(!d.upsert_discovered(&announce("a", "10.0.0.3"), 101));
    assert_eq!(d.len(), 1);
    let a = d.get(&"a".to_string()).unwrap();
    assert_eq!(a.ip, "10.0.0.3");
    assert_eq!(a.last_seen, 101);
    assert_eq!(a.status, DeviceStatus::Connected);
}

#[test]
fn silent_devices_go_offline_and_come_back() {
    let mut d = DeviceRegistry::new();
    d.upsert_discovered(&announce("a", "10.0.0.2"), 100);
    d.upsert_discovered(&announce("b", "10.0.0.3"), 105);
    assert!(!d.expire(110));
    assert!(d.expire(111));
    assert_eq!(d.get(&"a".to_string()).unwrap().status, DeviceStatus::Offline);
    assert_eq!(d.get(&"b".to_string()).unwrap().status, DeviceStatus::Connected);
    assert!(!d.expire(111));
    assert_eq!(d.connected_count(), 1);
    assert!(d.upsert_discovered(&announce("a", "10.0.0.2"), 120));
    assert_eq!(d.connected_count(), 2);
}

#[test]
fn targets_and_candidates_follow_status() {
    let mut d = DeviceRegistry::new();
    d.upsert_discovered(&announce("a", "10.0.0.2"), 1);
    d.upsert_discovered(&announce("b", "10.0.0.3"), 1);
    d.upsert_discovered(&announce("c", "10.0.0.4"), 1);
    d.set_status(&"a".to_string(), DeviceStatus::Offline);
    d.set_status(&"b".to_string(), DeviceStatus::Connecting);
    assert!(!d.set_status(&"zz".to_string(), DeviceStatus::Offline));
    let t: Vec<String> = d.broadcast_targets().into_iter().map(|x| x.id).collect();
    assert_eq!(t, vec!["b".to_string(), "c".to_string()]);
    let c: Vec<String> = d.reconnect_candidates(&vec!["b".to_string()]).into_iter().map(|x| x.id).collect();
    assert_eq!(c, vec!["a".to_string()]);
    d.mark_all_offline();
    assert_eq!(d.connected_count(), 0);
    assert!(d.broadcast_targets().is_empty());
}

#[test]
fn a_message_is_handled_once() {
    let mut s = SeenMessages::new();
    let id = "msg-1".to_string();
    assert!(s.check_and_insert(&id));
    assert!(!s.check_and_insert(&id));
    assert!(s.contains(&id));
}

#[test]
fn the_seen_window_forgets_its_oldest_half() {
    let mut s = SeenMessages::new();
    for k in 0..=SEEN_LIMIT {
        assert!(s.check_and_insert(&format!("id{}", k)));
    }
    assert!(!s.contains(&"id0".to_string()));
    assert!(!s.contains(&format!("id{}", SEEN_DROP - 1)));
    assert!(s.contains(&format!("id{}", SEEN_DROP)));
    assert!(s.contains(&format!("id{}", SEEN_LIMIT)));
    assert!(s.check_and_insert(&"id0".to_string()));
}

fn pending(status: &str) -> PendingTransfer {
    PendingTransfer {
        display_name: "a.txt".to_string(),
        files: vec![FileItemInfo { relative_path: "a.txt".to_string(), file_size: 3 }],
        total_size: 3,
        sender_id: "peer".to_string(),
        sender_ip: "10.0.0.9".to_string(),
        sender_port: 37021,
        base_temp_dir: "/tmp/clipsync/t1".to_string(),
        received_bytes: 0,
        current_file_index: 0,
        status: status.to_string(),
    }
}

#[test]
fn downloads_are_requested_once() {
    let mut p = PendingTransfers::new();
    let id = "t1".to_string();
    assert_eq!(p.begin_download(&id).err(), Some(DownloadRefusal::NotFound));
    p.insert(id.clone(), pending("pending"));
    let r = p.begin_download(&id).unwrap();
    assert_eq!(r, ("peer".to_string(), "10.0.0.9".to_string(), 37021));
    assert_eq!(p.get(&id).unwrap().status, "downloading");
    assert_eq!(p.begin_download(&id).err(), Some(DownloadRefusal::AlreadyDownloading));
    let f = p.finish(&id).unwrap();
    assert_eq!(f.display_name, "a.txt");
    assert_eq!(p.get(&id).unwrap().status, "done");
    assert_eq!(p.begin_download(&id).err(), Some(DownloadRefusal::AlreadyDone));
    assert_eq!(DownloadRefusal::AlreadyDone.message(), "该文件已下载完成");
    assert_eq!(DownloadRefusal::AlreadyDownloading.message(), "该文件正在下载中");
    assert_eq!(DownloadRefusal::NotFound.message(), "未找到对应的文件传输记录");
}

#[test]
fn chunks_are_counted_and_placed() {
    let mut p = PendingTransfers::new();
    let id = "t1".to_string();
    p.insert(id.clone(), pending("pending"));
    let t = p.record_chunk(&id, 0, 3).unwrap();
    assert_eq!(t.base_temp_dir, "/tmp/clipsync/t1");
    assert_eq!(t.relative_path, "a.txt");
    assert!(p.record_chunk(&id, 5, 2).is_none());
    let now = p.get(&id).unwrap();
    assert_eq!(now.received_bytes, 5);
    assert_eq!(now.current_file_index, 5);
    assert_eq!(now.status, "downloading");
    assert!(p.record_chunk(&"other".to_string(), 0, 1).is_none());
    p.clear();
    assert!(!p.contains(&id));
}

#[test]
fn a_handled_message_is_refused_for_the_next_five_hundred() {
    // The worst case: the id arrives when the window is just full.
    let mut s = SeenMessages::new();
    for k in 0..(SEEN_LIMIT - 1) {
        assert!(s.check_and_insert(&format!("old{}", k)));
    }
    let id = "msg".to_string();
    assert!(s.check_and_insert(&id));
    for k in 0..(SEEN_LIMIT - SEEN_DROP) {
        assert!(s.check_and_insert(&format!("new{}", k)));
        assert!(s.contains(&id));
    }
    assert!(!s.check_and_insert(&id));
    // One more arrival drops the older half, and the id with it.
    assert!(s.check_and_insert(&"one-more".to_string()));
    assert!(!s.contains(&id));
}

#[test]
fn own_sends_are_remembered_without_forgetting() {
    let mut s = SeenMessages::new();
    for k in 0..(SEEN_LIMIT + 100) {
        s.insert(format!("own{}", k));
    }
    assert!(s.contains(&"own0".to_string()));
    assert!(s.contains(&format!("own{}", SEEN_LIMIT + 99)));
    s.insert("own0".to_string());
    // An arriving message prunes the oldest half once.
    assert!(s.check_and_insert(&"in".to_string()));
    assert!(!s.contains(&"own0".to_string()));
    assert!(!s.contains(&format!("own{}", SEEN_DROP - 1)));
    assert!(s.contains(&format!("own{}", SEEN_DROP)));
    assert!(s.contains(&"in".to_string()));
}
