use wtui::app::{NetworkEntry, NetworkKind};
use wtui::netlist::{
    active_ap_key, ap_is_connected, build_network_list, device_entries, device_kind,
    is_activated, lex_less, listed_ssid, merge_access_point, network_connected,
    object_path_is_set, sort_networks, ssid_text, trim_trailing_slashes, wifi_entries,
    wired_entry, wireless_entry, AccessPointRecord, DeviceKind, DeviceRecord, SavedConnections,
};

fn ap(name: &str, signal: u8, connected: bool) -> NetworkEntry {
    NetworkEntry {
        name: name.to_string(),
        kind: NetworkKind::Wireless {
            ssid: name.to_string(),
            bssid: format!("bssid-{signal}"),
            signal,
            security: "Open".to_string(),
        },
        is_connected: connected,
        autoconnect: false,
        ip_address: None,
        gateway: None,
        dbus_path: "/d".to_string(),
        connection_path: None,
        ap_path: None,
    }
}

fn names(v: &[NetworkEntry]) -> Vec<&str> {
    v.iter().map(|e| e.name.as_str()).collect()
}

#[test]
fn lexicographic_order() {
    let a: Vec<char> = "abc".chars().collect();
    let b: Vec<char> = "abd".chars().collect();
    let p: Vec<char> = "ab".chars().collect();
    assert!(lex_less(&a, &b));
    assert!(!lex_less(&b, &a));
    assert!(lex_less(&p, &a));
    assert!(!lex_less(&a, &a));
}

#[test]
fn sort_puts_connected_first_then_names_ignoring_case() {
    let v = vec![ap("beta", 1, false), ap("Alpha", 1, false), ap("zeta", 1, true), ap("alpha2", 1, false)];
    let s = sort_networks(v);
    assert_eq!(names(&s), vec!["zeta", "Alpha", "alpha2", "beta"]);
}

#[test]
fn sort_keeps_order_of_equal_names() {
    let v = vec![ap("Net", 10, false), ap("net", 20, false), ap("NET", 30, false)];
    let s = sort_networks(v);
    let signals: Vec<u8> = s
        .iter()
        .map(|e| match e.kind {
            NetworkKind::Wireless { signal, .. } => signal,
            _ => 0,
        })
        .collect();
    assert_eq!(signals, vec![10, 20, 30]);
}

#[test]
fn sorted_list_is_sorted_and_complete() {
    let v = vec![ap("d", 1, false), ap("b", 1, true), ap("c", 1, false), ap("a", 1, true), ap("e", 1, false)];
    let s = sort_networks(v);
    assert_eq!(names(&s), vec!["a", "b", "c", "d", "e"]);
    assert!(s[0].is_connected && s[1].is_connected);
}

#[test]
fn merge_keeps_one_entry_per_ssid() {
    let mut seen = Vec::new();
    merge_access_point(&mut seen, ap("Home", 40, false));
    merge_access_point(&mut seen, ap("Cafe", 90, false));
    merge_access_point(&mut seen, ap("Home", 70, false));
    assert_eq!(names(&seen), vec!["Home", "Cafe"]);
    assert!(matches!(seen[0].kind, NetworkKind::Wireless { signal: 70, .. }));
    merge_access_point(&mut seen, ap("Home", 50, false));
    assert!(matches!(seen[0].kind, NetworkKind::Wireless { signal: 70, .. }));
}

#[test]
fn merge_prefers_connected_access_point() {
    let mut seen = Vec::new();
    merge_access_point(&mut seen, ap("Home", 80, false));
    merge_access_point(&mut seen, ap("Home", 10, true));
    assert!(seen[0].is_connected);
    merge_access_point(&mut seen, ap("Home", 99, false));
    assert!(seen[0].is_connected);
    assert!(matches!(seen[0].kind, NetworkKind::Wireless { signal: 10, .. }));
    assert_eq!(seen.len(), 1);
}

#[test]
fn saved_connections_read_after_write() {
    let mut t = SavedConnections::new();
    assert!(t.get("Home").is_none());
    assert_eq!(t.lookup_or("Home", true), (None, true));
    t.insert("Home".to_string(), Some("/s/1".to_string()), false);
    assert_eq!(t.get("Home"), Some((Some("/s/1".to_string()), false)));
    t.insert("Home".to_string(), Some("/s/2".to_string()), true);
    assert_eq!(t.lookup_or("Home", false), (Some("/s/2".to_string()), true));
    assert_eq!(t.lookup_or("Other", false), (None, false));
}

#[test]
fn saved_profiles_are_found_by_every_key() {
    let mut t = SavedConnections::new();
    t.record_profile("/s/5", Some("Office".into()), Some("uuid-5".into()), Some("wlan0".into()), Some("OfficeNet".into()), false);
    for k in ["Office", "uuid-5", "wlan0", "OfficeNet"] {
        assert_eq!(t.get(k), Some((Some("/s/5".to_string()), false)));
    }
    t.record_profile("/s/6", Some("wlan0".into()), None, None, None, true);
    assert_eq!(t.get("wlan0"), Some((Some("/s/6".to_string()), true)));
    assert_eq!(t.get("uuid-5"), Some((Some("/s/5".to_string()), false)));
}

#[test]
fn device_classification() {
    assert_eq!(device_kind(1), DeviceKind::Ethernet);
    assert_eq!(device_kind(2), DeviceKind::Wifi);
    assert_eq!(device_kind(30), DeviceKind::Other);
    assert!(is_activated(100));
    assert!(!is_activated(70));
}

#[test]
fn object_paths() {
    assert_eq!(trim_trailing_slashes("/a/b//"), "/a/b");
    assert_eq!(trim_trailing_slashes("///"), "");
    assert_eq!(trim_trailing_slashes("/a"), "/a");
    assert!(!object_path_is_set("/"));
    assert!(object_path_is_set("/ap/1"));
    assert_eq!(active_ap_key(true, Some("/ap/3/")), "/ap/3");
    assert_eq!(active_ap_key(true, Some("/")), "");
    assert_eq!(active_ap_key(false, Some("/ap/3")), "");
    assert_eq!(active_ap_key(true, None), "");
}

#[test]
fn connected_access_point_detection() {
    assert!(ap_is_connected(true, "/ap/3", "/ap/3/", None, "X"));
    assert!(!ap_is_connected(true, "/ap/3", "/ap/4", None, "X"));
    assert!(ap_is_connected(true, "", "/ap/4", Some("X"), "X"));
    assert!(!ap_is_connected(false, "/ap/3", "/ap/3", Some("X"), "X"));
    assert!(!ap_is_connected(true, "", "", None, "X"));
}

#[test]
fn ssid_bytes_and_hidden_networks() {
    assert_eq!(listed_ssid(b"Caf\xc3\xa9").as_deref(), Some("Café"));
    assert_eq!(listed_ssid(b"a\xffb").as_deref(), Some("a\u{FFFD}b"));
    assert_eq!(listed_ssid(b""), None);
    assert_eq!(listed_ssid(b" \t"), None);
    assert_eq!(listed_ssid(b" x ").as_deref(), Some(" x "));
}

#[test]
fn entries_from_devices() {
    let mut saved = SavedConnections::new();
    saved.insert("eth0".to_string(), Some("/s/1".to_string()), false);
    let w = wired_entry("eth0".into(), 1000, true, Some("10.0.0.2/24".into()), None, "/d/1".into(), &saved);
    assert_eq!(w.name, "eth0");
    assert!(w.is_connected);
    assert_eq!(w.connection_path.as_deref(), Some("/s/1"));
    assert!(!w.autoconnect);
    let w2 = wired_entry("eth1".into(), 100, false, None, None, "/d/2".into(), &saved);
    assert!(w2.connection_path.is_none());
    assert!(w2.autoconnect);
    let ip = Some("10.0.0.3/24".to_string());
    let gw = Some("10.0.0.1".to_string());
    let a = wireless_entry("Cafe".into(), "/ap/1".into(), "bb".into(), 60, 0, 0x100, true, &ip, &gw, "/d/3", &saved);
    assert!(matches!(&a.kind, NetworkKind::Wireless { security, signal: 60, .. } if security == "WPA2-PSK"));
    assert_eq!(a.ip_address.as_deref(), Some("10.0.0.3/24"));
    assert_eq!(a.ap_path.as_deref(), Some("/ap/1"));
    assert!(!a.autoconnect);
    let b = wireless_entry("Cafe".into(), "/ap/2".into(), "bb".into(), 60, 0, 0, false, &ip, &gw, "/d/3", &saved);
    assert!(b.ip_address.is_none() && b.gateway.is_none());
}

#[test]
fn connected_by_name() {
    let v = vec![ap("a", 1, false), ap("b", 1, true)];
    assert!(network_connected(&v, "b"));
    assert!(!network_connected(&v, "a"));
    assert!(!network_connected(&v, "c"));
}

#[test]
fn wired_entry_without_activation_shows_no_address() {
    let saved = SavedConnections::new();
    let w = wired_entry(
        "eth0".into(),
        1000,
        false,
        Some("10.0.0.2/24".into()),
        Some("10.0.0.1".into()),
        "/d/1".into(),
        &saved,
    );
    assert!(!w.is_connected);
    assert!(w.ip_address.is_none() && w.gateway.is_none());
    let on = wired_entry(
        "eth0".into(),
        1000,
        true,
        Some("10.0.0.2/24".into()),
        Some("10.0.0.1".into()),
        "/d/1".into(),
        &saved,
    );
    assert_eq!(on.ip_address.as_deref(), Some("10.0.0.2/24"));
    assert_eq!(on.gateway.as_deref(), Some("10.0.0.1"));
}

#[test]
fn profile_ssid_text() {
    assert_eq!(ssid_text(b"Home"), "Home");
    assert_eq!(ssid_text(b"Caf\xc3\xa9"), "Café");
    assert_eq!(ssid_text(b"\xff"), "\u{FFFD}");
    assert_eq!(ssid_text(b" "), " ");
}

fn access_point(path: &str, ssid: &[u8], strength: u8) -> AccessPointRecord {
    AccessPointRecord {
        path: path.to_string(),
        ssid: ssid.to_vec(),
        strength,
        hw_address: format!("hw{strength}"),
        wpa_flags: 0,
        rsn_flags: 0x100,
    }
}

fn wifi_device(active_ap: Option<&str>, aps: Vec<AccessPointRecord>) -> DeviceRecord {
    DeviceRecord {
        path: "/dev/wlan".to_string(),
        dev_type: 2,
        state: 100,
        interface: "wlan0".to_string(),
        speed: 0,
        ip_address: Some("192.168.1.5/24".to_string()),
        gateway: Some("192.168.1.1".to_string()),
        active_ap: active_ap.map(|s| s.to_string()),
        active_ssid: None,
        access_points: aps,
    }
}

fn signal(e: &NetworkEntry) -> u8 {
    match e.kind {
        NetworkKind::Wireless { signal, .. } => signal,
        _ => 0,
    }
}

#[test]
fn wifi_device_keeps_one_entry_per_ssid() {
    let d = wifi_device(
        Some("/ap/3"),
        vec![
            access_point("/ap/1", b"Home", 40),
            access_point("/ap/2", b"", 99),
            access_point("/ap/3", b"Home", 20),
            access_point("/ap/4", b"Cafe", 30),
            access_point("/ap/5", b"Cafe", 70),
            access_point("/ap/6", b"Home", 90),
            access_point("/ap/7", b"  ", 50),
        ],
    );
    let saved = SavedConnections::new();
    let r = wifi_entries(&d, &saved);
    assert_eq!(names(&r), vec!["Home", "Cafe"]);
    // the connected access point is kept over a stronger one
    assert!(r[0].is_connected);
    assert_eq!(r[0].ap_path.as_deref(), Some("/ap/3"));
    assert_eq!(signal(&r[0]), 20);
    assert_eq!(r[0].ip_address.as_deref(), Some("192.168.1.5/24"));
    // otherwise the strongest
    assert!(!r[1].is_connected);
    assert_eq!(signal(&r[1]), 70);
    assert!(r[1].ip_address.is_none() && r[1].gateway.is_none());
}

#[test]
fn device_entries_by_kind() {
    let saved = SavedConnections::new();
    let wired = DeviceRecord {
        path: "/dev/eth".to_string(),
        dev_type: 1,
        state: 30,
        interface: "eth0".to_string(),
        speed: 1000,
        ip_address: None,
        gateway: None,
        active_ap: None,
        active_ssid: None,
        access_points: Vec::new(),
    };
    let r = device_entries(&wired, &saved);
    assert_eq!(names(&r), vec!["eth0"]);
    assert!(!r[0].is_connected);
    assert!(r[0].autoconnect);
    let other = DeviceRecord { dev_type: 14, path: "/dev/lo".to_string(), ..wired };
    assert!(device_entries(&other, &saved).is_empty());
}

#[test]
fn network_list_from_devices() {
    let mut saved = SavedConnections::new();
    saved.insert("Cafe".to_string(), Some("/s/9".to_string()), true);
    let wired = DeviceRecord {
        path: "/dev/eth".to_string(),
        dev_type: 1,
        state: 100,
        interface: "eth0".to_string(),
        speed: 100,
        ip_address: Some("10.0.0.2/24".to_string()),
        gateway: Some("10.0.0.1".to_string()),
        active_ap: None,
        active_ssid: None,
        access_points: Vec::new(),
    };
    let mut wifi = wifi_device(
        None,
        vec![access_point("/ap/1", b"beta", 10), access_point("/ap/2", b"Cafe", 20)],
    );
    wifi.active_ssid = Some("Cafe".to_string());
    let devices = vec![wifi, wired];
    let list = build_network_list(&devices, &saved);
    assert_eq!(names(&list), vec!["Cafe", "eth0", "beta"]);
    assert!(list[0].is_connected && list[1].is_connected && !list[2].is_connected);
    assert_eq!(list[0].connection_path.as_deref(), Some("/s/9"));
    assert!(list[0].autoconnect);
    assert_eq!(list[0].dbus_path, "/dev/wlan");
    assert_eq!(list[1].dbus_path, "/dev/eth");
    assert_eq!(list[1].gateway.as_deref(), Some("10.0.0.1"));
    assert!(list[2].ip_address.is_none());
    assert!(build_network_list(&Vec::new(), &saved).is_empty());
}
