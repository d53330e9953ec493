use clip_sync::batch::{batch_total_size, build_batch_file_info, child_relative, ClipboardPath, PathKind};
use clip_sync::commands::{make_chunk_payload, ServerSession};
use clip_sync::monitor::{
    hash_paths, is_placeholder_file, ChangeCheck, ChangeProbe, FilesDecision, Gate, MonitorState, TextDecision, TextRead,
};
use clip_sync::network::NetworkInterface;
use clip_sync::protocol::{
    classify, first_free_number, is_file_content, is_multi_or_folder, is_single_file, platform_relative,
    renames_taken_file, saved_location, top_component, writes_clipboard, MessageKind, SavedLocation,
};
use clip_sync::settings::default_settings;
use clip_sync::state::{BroadcastInfo, DeviceStatus, FileItemInfo, FileStartData, WsMessage};
use clip_sync::sync::{chunk_fields, file_end_transfer_id, AppState, ChunkFields, FileStartPlan};

fn msg(id: &str, t: &str, c: &str, data: &str, sender: &str) -> WsMessage {
    WsMessage {
        id: id.to_string(),
        msg_type: t.to_string(),
        content_type: c.to_string(),
        data: data.to_string(),
        timestamp: 1000,
        sender_id: sender.to_string(),
        sender_name: format!("name-{}", sender),
    }
}

fn item(p: &str, size: u64) -> FileItemInfo {
    FileItemInfo { relative_path: p.to_string(), file_size: size }
}

fn state() -> AppState {
    AppState::new("my-pc".to_string(), default_settings("/dl".to_string()))
}

#[test]
fn messages_are_classified() {
    assert_eq!(classify(&msg("1", "clipboard", "text", "", "x")), MessageKind::ClipboardText);
    assert_eq!(classify(&msg("1", "clipboard", "image", "", "x")), MessageKind::ClipboardImage);
    assert_eq!(classify(&msg("1", "clipboard", "file", "", "x")), MessageKind::Unknown);
    assert_eq!(classify(&msg("1", "file-start", "file", "", "x")), MessageKind::FileStart);
    assert_eq!(classify(&msg("1", "file-request", "file", "", "x")), MessageKind::FileRequest);
    assert_eq!(classify(&msg("1", "file-chunk", "file", "", "x")), MessageKind::FileChunk);
    assert_eq!(classify(&msg("1", "file-end", "file", "", "x")), MessageKind::FileEnd);
    assert_eq!(classify(&msg("1", "ping", "", "", "x")), MessageKind::Unknown);
    assert!(is_file_content(&msg("1", "file-end", "file", "", "x")));
    assert!(!is_file_content(&msg("1", "file-start", "file", "", "x")));
}

#[test]
fn batch_shapes_decide_clipboard_and_location() {
    let single = vec![item("a.txt", 3)];
    let folder = vec![item("pics/a.png", 3), item("pics/b/c.png", 4)];
    assert!(is_single_file(&single));
    assert!(!is_single_file(&folder));
    assert!(!is_single_file(&vec![item("pics/a.png", 3)]));
    assert!(is_multi_or_folder(&folder));
    assert!(!is_multi_or_folder(&single));
    assert_eq!(top_component(&"pics/b/c.png".to_string()), "pics");
    assert_eq!(top_component(&"plain.txt".to_string()), "plain.txt");
    match saved_location(&folder, 2) {
        SavedLocation::TopFolder(c) => assert_eq!(c, "pics"),
        _ => panic!("a folder is saved as its top folder"),
    }
    assert!(matches!(saved_location(&single, 1), SavedLocation::FirstFile));
    assert!(matches!(saved_location(&single, 0), SavedLocation::DownloadDir));
    assert!(matches!(saved_location(&vec![item("/x", 1)], 1), SavedLocation::DownloadDir));
    assert!(writes_clipboard(&single, 1));
    assert!(!writes_clipboard(&folder, 2));
    assert_eq!(platform_relative(&"a/b/c.txt".to_string(), true), "a\\b\\c.txt");
    assert_eq!(platform_relative(&"a/b/c.txt".to_string(), false), "a/b/c.txt");
    assert!(renames_taken_file(&single));
    assert!(!renames_taken_file(&folder));
    assert!(!renames_taken_file(&vec![]));
}

#[test]
fn batches_collect_folders_and_files() {
    assert_eq!(child_relative("pics", "a.png"), "pics/a.png");
    let paths = vec![
        ClipboardPath {
            path: "/u/pics".to_string(),
            kind: PathKind::Dir {
                name: Some("pics".to_string()),
                entries: vec![
                    ("/u/pics/a.png".to_string(), "pics/a.png".to_string(), 10),
                    ("/u/pics/b/c.png".to_string(), "pics/b/c.png".to_string(), 20),
                ],
            },
        },
        ClipboardPath { path: "/u/x.txt".to_string(), kind: PathKind::File { name: Some("x.txt".to_string()), size: Some(5) } },
        ClipboardPath { path: "/dev/null".to_string(), kind: PathKind::Other },
    ];
    assert_eq!(batch_total_size(&paths), Some(35));
    let b = build_batch_file_info(&paths).unwrap();
    assert_eq!(b.display_name, "3个文件");
    assert_eq!(b.total_size, 35);
    let rel: Vec<&str> = b.file_items.iter().map(|f| f.relative_path.as_str()).collect();
    assert_eq!(rel, vec!["pics/a.png", "pics/b/c.png", "x.txt"]);
    assert_eq!(b.outgoing_items[2].absolute_path, "/u/x.txt");
    let one = vec![ClipboardPath { path: "/u/d".to_string(), kind: PathKind::Dir { name: None, entries: vec![("/u/d/q".to_string(), "folder/q".to_string(), 1)] } }];
    assert_eq!(build_batch_file_info(&one).unwrap().display_name, "folder");
    let file = vec![ClipboardPath { path: "/".to_string(), kind: PathKind::File { name: None, size: None } }];
    let b = build_batch_file_info(&file).unwrap();
    assert_eq!(b.display_name, "file");
    assert_eq!(b.file_items[0].relative_path, "unknown");
    assert_eq!(b.total_size, 0);
    let empty = vec![ClipboardPath { path: "/u/e".to_string(), kind: PathKind::Dir { name: Some("e".to_string()), entries: vec![] } }];
    assert!(build_batch_file_info(&empty).is_none());
    let huge = vec![
        ClipboardPath { path: "/u/a".to_string(), kind: PathKind::File { name: None, size: Some(u64::MAX) } },
        ClipboardPath {
            path: "/u/d".to_string(),
            kind: PathKind::Dir { name: None, entries: vec![("/u/d/q".to_string(), "folder/q".to_string(), 1)] },
        },
    ];
    assert_eq!(batch_total_size(&huge), None);
    let one_huge = vec![ClipboardPath { path: "/u/a".to_string(), kind: PathKind::File { name: None, size: Some(u64::MAX) } }];
    assert_eq!(batch_total_size(&one_huge), Some(u64::MAX));
}

#[test]
fn path_hashes_ignore_case() {
    assert_eq!(hash_paths(&vec!["C:\\Users\\A.TXT".to_string()]), hash_paths(&vec!["c:\\users\\a.txt".to_string()]));
    assert_ne!(hash_paths(&vec!["a".to_string()]), hash_paths(&vec!["b".to_string()]));
}

#[test]
fn placeholders_are_recognised() {
    let tmp = "C:\\Temp\\clipsync";
    assert!(is_placeholder_file("c:/temp/ClipSync/t1/a.txt", tmp, None, None));
    assert!(!is_placeholder_file("C:\\Users\\a.txt", tmp, None, None));
    assert!(is_placeholder_file("C:\\X~1\\a.txt", tmp, Some("C:\\Temp\\clipsync\\t1\\a.txt"), None));
    assert!(is_placeholder_file("/x/a.txt", tmp, None, Some("0f8fad5b-d9cb-469f-a165-70867728950e")));
    assert!(!is_placeholder_file("/x/a.txt", tmp, None, Some("not-a-transfer")));
}

#[test]
fn the_monitor_waits_for_the_writer_and_then_gives_up_on_it() {
    let mut m = MonitorState::new(7);
    assert_eq!(m.gate(true, false, 0), Gate::Skip);
    assert_eq!(m.gate(false, true, 1000), Gate::Skip);
    assert_eq!(m.gate(false, true, 5000), Gate::Skip);
    assert_eq!(m.gate(false, true, 11999), Gate::Skip);
    assert_eq!(m.gate(false, true, 12000), Gate::Proceed { reset_writing_flag: true });
    assert_eq!(m.gate(false, false, 12200), Gate::Proceed { reset_writing_flag: false });
}

#[test]
fn the_monitor_detects_changes() {
    let m = MonitorState::new(7);
    assert_eq!(m.check_change(&ChangeProbe::Counter(7)), ChangeCheck::Unchanged);
    assert_eq!(m.check_change(&ChangeProbe::Counter(8)), ChangeCheck::Changed);
    assert_eq!(m.check_change(&ChangeProbe::Counter(-1)), ChangeCheck::Skip);
    assert_eq!(m.check_change(&ChangeProbe::Text("".to_string())), ChangeCheck::Unchanged);
    assert_eq!(m.check_change(&ChangeProbe::Text("x".to_string())), ChangeCheck::Changed);
    assert_eq!(m.check_change(&ChangeProbe::TextError), ChangeCheck::Changed);
    assert_eq!(m.check_change(&ChangeProbe::Unavailable), ChangeCheck::Unchanged);
}

#[test]
fn the_monitor_sends_new_text_once() {
    let mut m = MonitorState::new(0);
    match m.on_text(TextRead::Text("hello".to_string()), 0) {
        TextDecision::Broadcast(t) => assert_eq!(t, "hello"),
        _ => panic!("new text is sent"),
    }
    assert!(matches!(m.on_text(TextRead::Text("hello".to_string()), 0), TextDecision::Ignore));
    assert!(matches!(m.on_text(TextRead::Text("".to_string()), 0), TextDecision::Ignore));
    assert!(matches!(m.on_text(TextRead::NotText, 0), TextDecision::Ignore));
    assert!(matches!(m.on_text(TextRead::Failed, 0), TextDecision::Retry));
}

#[test]
fn received_text_is_not_sent_back() {
    let mut s = state();
    let incoming = msg("r1", "clipboard", "text", "from afar", "peer");
    assert_eq!(s.accept_incoming(&incoming), Some(MessageKind::ClipboardText));
    assert_eq!(s.accept_incoming(&incoming), None);
    assert!(s.accept_remote_text(&incoming));
    s.record_remote_text(&incoming);
    assert_eq!(s.clipboard_history[0].source, "name-peer");
    let mut m = MonitorState::new(0);
    assert!(matches!(m.on_text(TextRead::Text("from afar".to_string()), s.last_remote_text_hash), TextDecision::Echo));
    assert_eq!(m.last_text, "from afar");
}

#[test]
fn own_messages_are_not_taken_as_remote() {
    let mut s = state();
    let mine = msg("o1", "clipboard", "text", "x", &s.local_id.clone());
    assert!(!s.accept_remote_text(&mine));
    assert_eq!(s.last_remote_text_hash, 0);
    assert!(s.accept_remote_image(&mine).is_none());
}

#[test]
fn written_files_are_not_offered_back() {
    let mut s = state();
    let paths = vec!["/tmp/clipsync/t1/a.txt".to_string()];
    s.set_written_files(&paths);
    let mut m = MonitorState::new(0);
    assert!(matches!(m.on_files(&paths, &vec![false], s.written_placeholder_hash), FilesDecision::PlaceholderEcho));
    let other = vec!["/home/u/b.txt".to_string()];
    match m.on_files(&other, &vec![false], s.written_placeholder_hash) {
        FilesDecision::NewFiles(v) => assert_eq!(v, other),
        _ => panic!("new files are offered"),
    }
    assert!(matches!(m.on_files(&other, &vec![false], s.written_placeholder_hash), FilesDecision::Unchanged));
    let mixed = vec!["/tmp/clipsync/t2/p".to_string(), "/home/u/c".to_string()];
    match m.on_files(&mixed, &vec![true, false], 0) {
        FilesDecision::NewFiles(v) => assert_eq!(v, vec!["/home/u/c".to_string()]),
        _ => panic!("only real files are offered"),
    }
    assert!(matches!(m.on_files(&vec!["/tmp/clipsync/t3/p".to_string()], &vec![true], 0), FilesDecision::OnlyPlaceholders));
}

#[test]
fn unreadable_changes_are_given_up_after_five_tries() {
    let mut m = MonitorState::new(1);
    for _ in 0..4 {
        assert!(!m.finish(false, Some(2)));
        assert_eq!(m.last_counter, 1);
    }
    assert!(m.finish(false, Some(2)));
    assert_eq!(m.last_counter, 2);
    assert_eq!(m.fail_count, 0);
    assert!(!m.finish(true, Some(3)));
    assert_eq!(m.last_counter, 3);
}

#[test]
fn local_text_is_announced_and_recorded() {
    let mut s = state();
    let m = s.prepare_text_broadcast("copied".to_string(), 77);
    assert_eq!(m.msg_type, "clipboard");
    assert_eq!(m.content_type, "text");
    assert_eq!(m.data, "copied");
    assert_eq!(m.sender_id, s.local_id);
    assert_eq!(m.id.len(), 36);
    assert_eq!(s.clipboard_history[0].source, "本机");
    assert_eq!(s.clipboard_history[0].text, "copied");
    assert_eq!(s.accept_incoming(&m), None);
}

#[test]
fn images_travel_as_base64_png() {
    let mut img = image::RgbaImage::new(2, 1);
    img.put_pixel(1, 0, image::Rgba([1, 2, 3, 255]));
    let mut png: Vec<u8> = Vec::new();
    img.write_to(&mut std::io::Cursor::new(&mut png), image::ImageFormat::Png).unwrap();
    let mut sender = state();
    let m = sender.prepare_image_broadcast(&png, 5);
    assert_eq!(m.content_type, "image");
    assert_ne!(m.data.as_bytes(), png.as_slice());
    assert_eq!(sender.clipboard_history[0].file_size, Some(png.len() as u64));
    let mut receiver = state();
    let mut incoming = m.clone();
    incoming.sender_id = "peer".to_string();
    let (decoded, size) = receiver.accept_remote_image(&incoming).unwrap();
    assert_eq!((decoded.width, decoded.height), (2, 1));
    assert_eq!(decoded.pixels, vec![0, 0, 0, 0, 1, 2, 3, 255]);
    assert_eq!(size, png.len() as u64);
    assert_ne!(receiver.last_remote_image_hash, 0);
    receiver.record_remote_image(&incoming, size);
    assert_eq!(receiver.clipboard_history[0].content_type, "image");
    let mut bad = incoming.clone();
    bad.data = "***".to_string();
    assert!(receiver.accept_remote_image(&bad).is_none());
}

#[test]
fn a_received_batch_goes_from_pending_to_done() {
    let mut s = state();
    s.on_discovery(&BroadcastInfo { id: "peer".to_string(), name: "p".to_string(), ip: "10.0.0.9".to_string(), port: 37021, timestamp: 1 }, 1);
    let data = FileStartData {
        transfer_id: "t1".to_string(),
        display_name: "a.txt".to_string(),
        files: vec![item("a.txt", 3)],
        total_size: 3,
    };
    let start = msg("s1", "file-start", "file", "{}", "peer");
    assert_eq!(s.plan_file_start(&start, &data), FileStartPlan::Accept { single_file: true });
    s.register_file_start(&start, &data, "/tmp/clipsync/t1".to_string());
    assert_eq!(s.plan_file_start(&start, &data), FileStartPlan::Ignore);
    assert_eq!(s.clipboard_history[0].download_status.as_deref(), Some("pending"));
    let t = s.pending_transfers.get(&"t1".to_string()).unwrap();
    assert_eq!((t.sender_ip.as_str(), t.sender_port), ("10.0.0.9", 37021));

    let req = s.begin_file_request(&"t1".to_string(), 50).unwrap();
    assert_eq!(req.message.msg_type, "file-request");
    assert_eq!(req.message.data, "t1");
    assert_eq!(req.sender_id, "peer");
    assert_eq!(s.clipboard_history[0].download_status.as_deref(), Some("downloading"));
    assert_eq!(s.begin_file_request(&"t1".to_string(), 51).err(), Some("该文件正在下载中".to_string()));
    assert_eq!(s.begin_file_request(&"nope".to_string(), 51).err(), Some("未找到对应的文件传输记录".to_string()));

    let payload = make_chunk_payload(&"t1".to_string(), 0, 0, b"abc");
    assert_eq!(payload.data, "YWJj");
    let w = s
        .accept_chunk(&ChunkFields { transfer_id: Some(payload.transfer_id.clone()), file_index: Some(0), data: Some(payload.data.clone()) })
        .unwrap();
    assert_eq!(w.bytes, b"abc".to_vec());
    assert_eq!(w.target.relative_path, "a.txt");
    assert!(s.accept_chunk(&ChunkFields { transfer_id: None, file_index: Some(0), data: Some("YWJj".to_string()) }).is_none());
    assert!(s.accept_chunk(&ChunkFields { transfer_id: Some("t1".to_string()), file_index: None, data: Some("%%".to_string()) }).is_none());
    assert_eq!(s.pending_transfers.received_bytes(&"t1".to_string()), Some(3));

    let f = s.finish_transfer(&"t1".to_string()).unwrap();
    assert_eq!(f.base_temp_dir, "/tmp/clipsync/t1");
    s.complete_download(&"t1".to_string(), "/dl/a.txt".to_string());
    assert_eq!(s.clipboard_history[0].download_status.as_deref(), Some("done"));
    assert_eq!(s.clipboard_history[0].file_path.as_deref(), Some("/dl/a.txt"));
    assert_eq!(s.begin_file_request(&"t1".to_string(), 52).err(), Some("该文件已下载完成".to_string()));
}

#[test]
fn offered_files_are_found_by_requests() {
    let mut s = state();
    let paths = vec![ClipboardPath { path: "/u/x.txt".to_string(), kind: PathKind::File { name: Some("x.txt".to_string()), size: Some(5) } }];
    let batch = build_batch_file_info(&paths).unwrap();
    let data = s.offer_files(batch);
    assert_eq!(data.transfer_id.len(), 36);
    let m = s.prepare_file_start(&data, "{...}".to_string(), 9);
    assert_eq!(m.msg_type, "file-start");
    assert_eq!(s.clipboard_history[0].transfer_id.as_deref(), Some(data.transfer_id.as_str()));
    let req = msg("q1", "file-request", "file", &data.transfer_id, "peer");
    assert!(s.file_request_target(&req).is_none());
    s.on_discovery(&BroadcastInfo { id: "peer".to_string(), name: "p".to_string(), ip: "10.0.0.9".to_string(), port: 37021, timestamp: 1 }, 1);
    let (f, addr) = s.file_request_target(&req).unwrap();
    assert_eq!(addr, "ws://10.0.0.9:37021");
    assert_eq!(f.files[0].absolute_path, "/u/x.txt");
    assert_eq!(f.total_size, 5);
}

#[test]
fn pausing_silences_discovery_and_broadcasts() {
    let mut s = state();
    let me = s.local_id.clone();
    assert_eq!(s.on_discovery(&BroadcastInfo { id: me, name: "self".to_string(), ip: "1.1.1.1".to_string(), port: 1, timestamp: 0 }, 1), None);
    assert_eq!(s.on_discovery(&BroadcastInfo { id: "p".to_string(), name: "p".to_string(), ip: "10.0.0.9".to_string(), port: 37021, timestamp: 0 }, 1), Some(true));
    assert_eq!(s.broadcast_targets().len(), 1);
    let ifaces = vec![NetworkInterface {
        name: "en0".to_string(),
        ip: "10.0.0.2".to_string(),
        netmask: "255.255.255.0".to_string(),
        broadcast: "10.0.0.255".to_string(),
        is_loopback: false,
        is_virtual: false,
    }];
    let a = s.announcements(&ifaces, 3);
    assert_eq!(a.len(), 1);
    assert_eq!(a[0].bind_addr, "10.0.0.2:0");
    assert_eq!(a[0].target, "10.0.0.255:37020");
    assert_eq!(a[0].info.port, 37021);
    s.disconnect_sync();
    assert!(!s.get_sync_status());
    assert!(s.broadcast_targets().is_empty());
    assert!(s.announcements(&ifaces, 4).is_empty());
    assert!(s.reconnect_candidates(&vec![]).is_empty());
    assert_eq!(s.on_discovery(&BroadcastInfo { id: "q".to_string(), name: "q".to_string(), ip: "10.0.0.8".to_string(), port: 37021, timestamp: 0 }, 2), None);
    assert_eq!(s.get_devices()[0].status, DeviceStatus::Offline);
    s.connect_sync();
    assert!(s.get_sync_status());
    assert_eq!(s.reconnect_candidates(&vec![]).len(), 1);
    assert_eq!(s.on_discovery(&BroadcastInfo { id: "p".to_string(), name: "p".to_string(), ip: "10.0.0.9".to_string(), port: 37021, timestamp: 0 }, 5), Some(true));
}

#[test]
fn status_and_settings_are_reported() {
    let mut s = state();
    s.on_discovery(&BroadcastInfo { id: "p".to_string(), name: "p".to_string(), ip: "10.0.0.9".to_string(), port: 37021, timestamp: 0 }, 1);
    s.on_discovery(&BroadcastInfo { id: "q".to_string(), name: "q".to_string(), ip: "10.0.0.8".to_string(), port: 37021, timestamp: 0 }, 1);
    assert!(s.set_device_status(&"q".to_string(), DeviceStatus::Offline));
    let phys = vec![NetworkInterface {
        name: "en0".to_string(),
        ip: "10.0.0.2".to_string(),
        netmask: "255.255.255.0".to_string(),
        broadcast: "10.0.0.255".to_string(),
        is_loopback: false,
        is_virtual: false,
    }];
    let st = s.get_status(&phys);
    assert_eq!(st.local_ips, vec!["10.0.0.2".to_string()]);
    assert_eq!(st.interface_names, vec!["en0".to_string()]);
    assert_eq!((st.connected_devices, st.total_devices), (1, 2));
    assert_eq!(st.local_port, 37021);
    assert_eq!(st.local_name, "my-pc");
    let saved = s.set_download_dir("/new".to_string());
    assert_eq!(saved.download_dir, "/new");
    let saved = s.set_shortcut("Alt+C".to_string());
    assert_eq!((saved.download_dir.as_str(), saved.shortcut.as_str()), ("/new", "Alt+C"));
    let saved = s.set_autostart(true);
    assert!(saved.autostart);
    let info = s.get_settings(1234);
    assert_eq!(info.cache_size, 1234);
    assert_eq!(info.shortcut, "Alt+C");
    s.prepare_text_broadcast("x".to_string(), 1);
    assert_eq!(s.get_clipboard_history().len(), 1);
    s.clear_history();
    assert!(s.get_clipboard_history().is_empty());
}

#[test]
fn server_sessions_track_their_peer() {
    let mut sess = ServerSession::new();
    assert_eq!(sess.on_close(), None);
    assert_eq!(sess.on_message(&msg("1", "clipboard", "text", "", "peer")), Some("peer".to_string()));
    assert_eq!(sess.on_message(&msg("2", "clipboard", "text", "", "other")), None);
    assert_eq!(sess.on_close(), Some("peer".to_string()));
    let mut files = ServerSession::new();
    files.on_message(&msg("3", "file-chunk", "file", "", "peer"));
    assert_eq!(files.on_close(), None);
}

#[test]
fn the_least_free_number_is_chosen() {
    assert_eq!(first_free_number(&vec![false, false]), Some(1));
    assert_eq!(first_free_number(&vec![true, true, false, false]), Some(3));
    assert_eq!(first_free_number(&vec![true; 99]), None);
    assert_eq!(first_free_number(&vec![]), None);
}

#[test]
fn local_changes_forget_the_echo_hashes() {
    let mut s = state();
    s.set_written_files(&vec!["/tmp/clipsync/t/a".to_string()]);
    assert!(s.accept_remote_text(&msg("r", "clipboard", "text", "hi", "peer")));
    let remote = s.last_remote_text_hash;
    s.forget_written_files();
    assert_eq!(s.written_placeholder_hash, 0);
    assert_eq!(s.last_remote_text_hash, remote);
    s.set_written_files(&vec!["/tmp/clipsync/t/a".to_string()]);
    s.forget_echo_hashes();
    assert_eq!(s.written_placeholder_hash, 0);
    assert_eq!(s.last_remote_text_hash, 0);
}

#[test]
fn every_history_step_keeps_the_older_entries() {
    let mut s = state();
    s.prepare_text_broadcast("one".to_string(), 1);
    s.record_remote_text(&msg("r2", "clipboard", "text", "two", "peer"));
    s.record_remote_image(&msg("r3", "clipboard", "image", "", "peer"), 9);
    let data = FileStartData { transfer_id: "t".to_string(), display_name: "f.txt".to_string(), files: vec![item("f.txt", 4)], total_size: 4 };
    s.register_file_start(&msg("r4", "file-start", "file", "", "peer"), &data, "/tmp/clipsync/t".to_string());
    let texts: Vec<&str> = s.clipboard_history.iter().map(|e| e.text.as_str()).collect();
    assert_eq!(texts, vec!["f.txt", "", "two", "one"]);
    assert!(s.clipboard_history[0].file_path.is_none());
    for k in 0..30 {
        s.record_remote_text(&msg(&format!("x{}", k), "clipboard", "text", &format!("t{}", k), "peer"));
    }
    assert_eq!(s.clipboard_history.len(), 20);
    assert_eq!(s.clipboard_history[0].text, "t29");
    assert_eq!(s.clipboard_history[19].text, "t10");
}

#[test]
fn a_duplicate_message_changes_nothing() {
    let mut s = state();
    let m = msg("d1", "clipboard", "text", "x", "peer");
    assert!(s.accept_incoming(&m).is_some());
    s.set_written_files(&vec!["/a".to_string()]);
    let before = (s.written_placeholder_hash, s.last_remote_text_hash, s.is_paused, s.clipboard_history.len());
    assert_eq!(s.accept_incoming(&m), None);
    assert_eq!((s.written_placeholder_hash, s.last_remote_text_hash, s.is_paused, s.clipboard_history.len()), before);
}

#[test]
fn chunk_payloads_are_read_field_by_field() {
    let f = chunk_fields(&r#"{"transfer_id":"t1","file_index":2,"offset":0,"data":"aGk="}"#.to_string());
    assert_eq!(f.transfer_id, Some("t1".to_string()));
    assert_eq!(f.file_index, Some(2));
    assert_eq!(f.data, Some("aGk=".to_string()));
    let wrong = chunk_fields(&r#"{"transfer_id":7,"file_index":"2","data":"x"}"#.to_string());
    assert_eq!(wrong.transfer_id, None);
    assert_eq!(wrong.file_index, None);
    assert_eq!(wrong.data, Some("x".to_string()));
    let none = chunk_fields(&"not json".to_string());
    assert!(none.transfer_id.is_none() && none.file_index.is_none() && none.data.is_none());
    let arr = chunk_fields(&"[1,2]".to_string());
    assert!(arr.transfer_id.is_none());
    assert_eq!(file_end_transfer_id(&r#"{"transfer_id":"t9"}"#.to_string()), Some("t9".to_string()));
    assert_eq!(file_end_transfer_id(&"{}".to_string()), None);
}

#[test]
fn a_chunk_message_reaches_its_transfer() {
    let mut s = state();
    let data = FileStartData { transfer_id: "t".to_string(), display_name: "f.txt".to_string(), files: vec![item("f.txt", 2)], total_size: 2 };
    s.register_file_start(&msg("r", "file-start", "file", "", "peer"), &data, "/tmp/clipsync/t".to_string());
    let fields = chunk_fields(&r#"{"transfer_id":"t","file_index":0,"offset":0,"data":"aGk="}"#.to_string());
    let w = s.accept_chunk(&fields).unwrap();
    assert_eq!(w.bytes, b"hi".to_vec());
    assert_eq!(w.target.relative_path, "f.txt");
    let end = file_end_transfer_id(&r#"{"transfer_id":"t"}"#.to_string()).unwrap();
    assert_eq!(s.finish_transfer(&end).unwrap().display_name, "f.txt");
}

#[test]
fn identifiers_are_hyphenated_v4_uuids() {
    let s = state();
    let id: Vec<char> = s.local_id.chars().collect();
    assert_eq!(id.len(), 36);
    for (i, c) in id.iter().enumerate() {
        if [8, 13, 18, 23].contains(&i) {
            assert_eq!(*c, '-');
        } else {
            assert!(c.is_ascii_hexdigit() && !c.is_ascii_uppercase());
        }
    }
    assert_eq!(id[14], '4');
    assert!(['8', '9', 'a', 'b'].contains(&id[19]));
}

#[test]
fn a_connection_marks_its_first_sender_unless_it_carried_files() {
    let mut plain = ServerSession::new();
    assert_eq!(plain.on_message(&msg("1", "clipboard", "text", "", "p")), Some("p".to_string()));
    assert_eq!(plain.on_message(&msg("2", "clipboard", "text", "", "q")), None);
    assert_eq!(plain.on_close(), Some("p".to_string()));
    let mut files = ServerSession::new();
    files.on_message(&msg("3", "file-request", "file", "", "p"));
    files.on_message(&msg("4", "file-chunk", "file", "", "p"));
    files.on_message(&msg("5", "clipboard", "text", "", "p"));
    assert_eq!(files.on_close(), None);
    assert_eq!(ServerSession::new().on_close(), None);
}

#[test]
fn a_stuck_writing_flag_is_cleared_after_ten_seconds() {
    let mut m = MonitorState::new(0);
    let mut t = 0u64;
    let mut cleared_at = None;
    while t <= 20_000 {
        if let Gate::Proceed { reset_writing_flag: true } = m.gate(false, true, t) {
            cleared_at = Some(t);
            break;
        }
        t += 200;
    }
    assert_eq!(cleared_at, Some(11_000));
}
