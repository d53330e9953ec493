use clip_sync::logtime::{backup_log_name, days_to_ymd, format_time, is_leap, needs_rotation, rotation_plan, RotationStep, MAX_LOG_SIZE};
use clip_sync::network::{
    compute_broadcast, format_ipv4, get_all_interfaces, get_physical_interfaces, is_virtual_name, sort_interfaces,
    usable_from_raw, NetworkInterface, RawInterface,
};
use clip_sync::pasteboard::{mac_set_files_script, parse_listed_paths, trim_chars, windows_set_file_command};
use clip_sync::protocol::{
    dotted_extension, fallback_address, format_host_port, numbered_file_name, several_files_name, ws_address,
};
use clip_sync::settings::{cache_size_of, default_settings, default_shortcut};

#[test]
fn leap_years_follow_the_gregorian_rule() {
    assert!(is_leap(2024));
    assert!(!is_leap(2023));
    assert!(!is_leap(1900));
    assert!(is_leap(2000));
}

#[test]
fn days_map_to_calendar_dates() {
    assert_eq!(days_to_ymd(0), (1970, 1, 1));
    assert_eq!(days_to_ymd(31), (1970, 2, 1));
    assert_eq!(days_to_ymd(365), (1971, 1, 1));
    assert_eq!(days_to_ymd(19723), (2024, 1, 1));
    assert_eq!(days_to_ymd(19782), (2024, 2, 29));
    assert_eq!(days_to_ymd(19783), (2024, 3, 1));
    assert_eq!(days_to_ymd(11016), (2000, 2, 29));
}

#[test]
fn consecutive_days_give_consecutive_dates() {
    // the date of each day follows the date of the day before
    let mut prev = days_to_ymd(0);
    for d in 1..3000u64 {
        let cur = days_to_ymd(d);
        let next_day = (prev.0, prev.1, prev.2 + 1);
        let next_month = if prev.1 == 12 { (prev.0 + 1, 1, 1) } else { (prev.0, prev.1 + 1, 1) };
        assert!(cur == next_day || cur == next_month);
        prev = cur;
    }
}

#[test]
fn log_time_stamps_are_formatted() {
    assert_eq!(format_time(0), "1970-01-01 00:00:00");
    assert_eq!(format_time(1700000000), "2023-11-14 22:13:20");
    assert_eq!(format_time(86399), "1970-01-01 23:59:59");
}

#[test]
fn log_rotation_shifts_backups() {
    assert_eq!(backup_log_name(2), "clipsync.2.log");
    let plan = rotation_plan();
    assert_eq!(plan.len(), 4);
    match &plan[0] {
        RotationStep::Remove(a) => assert_eq!(a, "clipsync.3.log"),
        _ => panic!("first step removes the oldest backup"),
    }
    match &plan[3] {
        RotationStep::Rename(a, b) => {
            assert_eq!(a, "clipsync.log");
            assert_eq!(b, "clipsync.1.log");
        }
        _ => panic!("last step moves the current log"),
    }
}

#[test]
fn addresses_are_formatted() {
    assert_eq!(ws_address("192.168.1.5", 37021), "ws://192.168.1.5:37021");
    assert_eq!(format_host_port("10.0.0.255", 37020), "10.0.0.255:37020");
    assert_eq!(format_host_port("10.0.0.2", 0), "10.0.0.2:0");
}

#[test]
fn fallback_needs_an_address() {
    assert_eq!(fallback_address(&String::new(), 37021), Err("无法获取发送端地址信息".to_string()));
    assert_eq!(fallback_address(&"10.0.0.2".to_string(), 0), Err("无法获取发送端地址信息".to_string()));
    assert_eq!(fallback_address(&"10.0.0.2".to_string(), 37021), Ok("ws://10.0.0.2:37021".to_string()));
}

#[test]
fn names_are_formatted() {
    assert_eq!(several_files_name(3), "3个文件");
    assert_eq!(numbered_file_name("report", 2, ".pdf"), "report(2).pdf");
    assert_eq!(numbered_file_name("notes", 17, ""), "notes(17)");
    assert_eq!(dotted_extension(Some("txt")), ".txt");
    assert_eq!(dotted_extension(None), "");
}

#[test]
fn settings_defaults() {
    assert_eq!(default_shortcut(), "CmdOrCtrl+Shift+V");
    let s = default_settings("/home/u/Downloads".to_string());
    assert_eq!(s.download_dir, "/home/u/Downloads");
    assert_eq!(s.shortcut, "CmdOrCtrl+Shift+V");
    assert!(!s.autostart);
}

#[test]
fn cache_size_counts_regular_files_only() {
    assert_eq!(cache_size_of(&vec![(true, 100), (false, 4096), (true, 23)]), Some(123));
    assert_eq!(cache_size_of(&vec![]), Some(0));
    assert_eq!(cache_size_of(&vec![(true, u64::MAX), (false, 1)]), Some(u64::MAX));
    assert_eq!(cache_size_of(&vec![(true, u64::MAX), (true, 1)]), None);
}

#[test]
fn ipv4_addresses_are_dotted_decimal() {
    assert_eq!(format_ipv4(0xC0A80105), "192.168.1.5");
    assert_eq!(format_ipv4(0), "0.0.0.0");
    assert_eq!(format_ipv4(0xFFFFFFFF), "255.255.255.255");
}

#[test]
fn broadcast_sets_host_bits() {
    assert_eq!(compute_broadcast(0xC0A80105, 0xFFFFFF00), 0xC0A801FF);
    assert_eq!(compute_broadcast(0x0A000002, 0xFF000000), 0x0AFFFFFF);
}

#[test]
fn virtual_interfaces_are_recognised_case_insensitively() {
    assert!(is_virtual_name("Docker0"));
    assert!(is_virtual_name("VMware Network Adapter VMnet8"));
    assert!(is_virtual_name("utun3"));
    assert!(is_virtual_name("Tailscale"));
    assert!(!is_virtual_name("en0"));
    assert!(!is_virtual_name("Ethernet"));
}

fn raw(name: &str, ip: Option<(u32, u32)>) -> RawInterface {
    RawInterface { name: name.to_string(), ipv4: ip }
}

#[test]
fn loopback_and_unspecified_addresses_are_left_out() {
    let r = usable_from_raw(&vec![
        raw("lo", Some((0x7F000001, 0xFF000000))),
        raw("en0", Some((0xC0A80105, 0xFFFFFF00))),
        raw("any", Some((0, 0))),
        raw("v6only", None),
    ]);
    assert_eq!(r.len(), 1);
    assert_eq!(r[0].name, "en0");
    assert_eq!(r[0].ip, "192.168.1.5");
    assert_eq!(r[0].netmask, "255.255.255.0");
    assert_eq!(r[0].broadcast, "192.168.1.255");
    assert!(!r[0].is_loopback);
    assert!(!r[0].is_virtual);
}

fn iface(name: &str, ip: &str, is_virtual: bool) -> NetworkInterface {
    NetworkInterface {
        name: name.to_string(),
        ip: ip.to_string(),
        netmask: "255.255.255.0".to_string(),
        broadcast: "255.255.255.255".to_string(),
        is_loopback: false,
        is_virtual,
    }
}

#[test]
fn interfaces_sort_physical_first_then_by_name_stably() {
    let v = vec![
        iface("docker0", "172.17.0.1", true),
        iface("wlan0", "10.0.0.5", false),
        iface("eth0", "10.0.1.5", false),
        iface("eth0", "10.0.2.5", false),
        iface("Eth1", "10.0.3.5", false),
    ];
    let s = sort_interfaces(v);
    let names: Vec<(&str, &str)> = s.iter().map(|i| (i.name.as_str(), i.ip.as_str())).collect();
    assert_eq!(
        names,
        vec![
            ("Eth1", "10.0.3.5"),
            ("eth0", "10.0.1.5"),
            ("eth0", "10.0.2.5"),
            ("wlan0", "10.0.0.5"),
            ("docker0", "172.17.0.1"),
        ]
    );
}

#[test]
fn all_interfaces_are_listed_in_order_and_physical_ones_filtered() {
    let all = get_all_interfaces(&vec![
        raw("vEthernet (WSL)", Some((0xAC100001, 0xFFFFF000))),
        raw("en1", Some((0x0A000005, 0xFFFFFF00))),
        raw("en0", Some((0xC0A80105, 0xFFFFFF00))),
    ]);
    let names: Vec<&str> = all.iter().map(|i| i.name.as_str()).collect();
    assert_eq!(names, vec!["en0", "en1", "vEthernet (WSL)"]);
    let phys = get_physical_interfaces(&all);
    let names: Vec<&str> = phys.iter().map(|i| i.name.as_str()).collect();
    assert_eq!(names, vec!["en0", "en1"]);
}

#[test]
fn mac_script_quotes_and_escapes_paths() {
    let s = mac_set_files_script(&vec!["/tmp/a'b.txt".to_string(), "/tmp/c\\d".to_string()]);
    assert_eq!(
        s,
        "ObjC.import('AppKit');var pb=$.NSPasteboard.generalPasteboard;pb.clearContents;var files=['/tmp/a\\'b.txt','/tmp/c\\\\d'];var urls=files.map(function(f){return $.NSURL.fileURLWithPath(f)});pb.writeObjects(urls)"
    );
}

#[test]
fn windows_command_doubles_quotes() {
    let s = windows_set_file_command("C:\\Users\\o'neil\\a.txt");
    assert_eq!(
        s,
        "[Console]::OutputEncoding = [System.Text.Encoding]::UTF8; $OutputEncoding = [System.Text.Encoding]::UTF8; Set-Clipboard -Path 'C:\\Users\\o''neil\\a.txt'"
    );
}

#[test]
fn listed_paths_are_trimmed_and_split_into_lines() {
    let r = parse_listed_paths("\u{feff}  C:\\a.txt\r\n\r\n  C:\\b dir  \r\n", true);
    assert_eq!(r, Some(vec!["C:\\a.txt".to_string(), "C:\\b dir".to_string()]));
    let r = parse_listed_paths("/Users/u/x.png\n/Users/u/y\n", false);
    assert_eq!(r, Some(vec!["/Users/u/x.png".to_string(), "/Users/u/y".to_string()]));
    assert_eq!(parse_listed_paths("   \n  ", false), None);
    assert_eq!(parse_listed_paths("", true), None);
}

#[test]
fn trimming_drops_exactly_the_unicode_white_space() {
    for n in 0u32..0x3100 {
        if let Some(c) = char::from_u32(n) {
            let alone = trim_chars(&vec![c]);
            assert_eq!(alone.is_empty(), c.is_whitespace(), "character U+{:04X}", n);
        }
    }
    let s: Vec<char> = "\u{3000}\t a b \u{2009}\n".chars().collect();
    let expected: Vec<char> = "\u{3000}\t a b \u{2009}\n".trim().chars().collect();
    assert_eq!(trim_chars(&s), expected);
    assert_eq!(trim_chars(&s), vec!['a', ' ', 'b']);
}

#[test]
fn logs_rotate_beyond_two_megabytes() {
    assert_eq!(MAX_LOG_SIZE, 2 * 1024 * 1024);
    assert!(!needs_rotation(MAX_LOG_SIZE));
    assert!(needs_rotation(MAX_LOG_SIZE + 1));
    assert!(!needs_rotation(0));
}
