use wtui::app::{App, NetworkEntry, NetworkKind, UiEvent, ViewMode};

fn wifi_net(name: &str, signal: u8, connected: bool, path: Option<&str>) -> NetworkEntry {
    NetworkEntry {
        name: name.to_string(),
        kind: NetworkKind::Wireless {
            ssid: name.to_string(),
            bssid: "AA:BB:CC:DD:EE:FF".to_string(),
            signal,
            security: "WPA2-PSK".to_string(),
        },
        is_connected: connected,
        autoconnect: false,
        ip_address: None,
        gateway: None,
        dbus_path: "/org/freedesktop/NetworkManager/Devices/2".to_string(),
        connection_path: path.map(|p| p.to_string()),
        ap_path: Some("/org/freedesktop/NetworkManager/AccessPoint/1".to_string()),
    }
}

fn wired_net(name: &str, connected: bool) -> NetworkEntry {
    NetworkEntry {
        name: name.to_string(),
        kind: NetworkKind::Wired { interface: name.to_string(), speed: 1000 },
        is_connected: connected,
        autoconnect: true,
        ip_address: Some("192.168.1.2/24".to_string()),
        gateway: Some("192.168.1.1".to_string()),
        dbus_path: "/org/freedesktop/NetworkManager/Devices/1".to_string(),
        connection_path: Some("/org/freedesktop/NetworkManager/Settings/1".to_string()),
        ap_path: None,
    }
}

#[test]
fn security_of_kinds() {
    assert_eq!(wifi_net("a", 10, false, None).kind.security(), Some("WPA2-PSK"));
    assert_eq!(wired_net("eth0", false).kind.security(), None);
}

#[test]
fn new_app_is_ready() {
    let app = App::new();
    assert!(app.networks.is_empty());
    assert_eq!(app.selected_index, 0);
    assert!(!app.show_qr);
    assert!(app.qr_password.is_none());
    assert!(!app.should_quit);
    assert_eq!(app.status_message, "Ready");
    assert_eq!(app.view_mode, ViewMode::Normal);
    assert!(!app.speed_test.is_running);
    assert_eq!(app.speed_test.progress_pct, 0);
    assert_eq!(app.anim_frame, 0);
    assert!(!app.password_modal.open);
    assert!(app.password_modal.entry.is_none());
    assert!(app.password_modal.input.is_empty());
}

#[test]
fn set_status_replaces_message() {
    let mut app = App::new();
    app.set_status("Scanning".to_string());
    assert_eq!(app.status_message, "Scanning");
}

#[test]
fn next_and_previous_wrap_around() {
    let mut app = App::new();
    app.set_networks(vec![wired_net("eth0", false), wifi_net("a", 10, false, None), wifi_net("b", 10, false, None)]);
    assert_eq!(app.selected_index, 0);
    app.qr_password = Some("x".to_string());
    app.next_network();
    assert_eq!(app.selected_index, 1);
    assert!(app.qr_password.is_none());
    app.next_network();
    app.next_network();
    assert_eq!(app.selected_index, 0);
    app.previous_network();
    assert_eq!(app.selected_index, 2);
    app.previous_network();
    assert_eq!(app.selected_index, 1);
}

#[test]
fn moving_in_an_empty_list_changes_nothing() {
    let mut app = App::new();
    app.qr_password = Some("kept".to_string());
    app.next_network();
    app.previous_network();
    assert_eq!(app.selected_index, 0);
    assert_eq!(app.qr_password.as_deref(), Some("kept"));
}

#[test]
fn next_then_previous_returns_to_same_row() {
    let mut app = App::new();
    app.set_networks(vec![wifi_net("a", 1, false, None), wifi_net("b", 1, false, None), wifi_net("c", 1, false, None)]);
    for start in 0..3 {
        app.selected_index = start;
        app.next_network();
        app.previous_network();
        assert_eq!(app.selected_index, start);
        app.previous_network();
        app.next_network();
        assert_eq!(app.selected_index, start);
    }
}

#[test]
fn clamp_selection_cases() {
    let mut app = App::new();
    app.selected_index = 7;
    app.clamp_selection();
    assert_eq!(app.selected_index, 0);
    app.networks = vec![wifi_net("a", 1, false, None), wifi_net("b", 1, false, None)];
    app.selected_index = 9;
    app.clamp_selection();
    assert_eq!(app.selected_index, 1);
    app.selected_index = 0;
    app.clamp_selection();
    assert_eq!(app.selected_index, 0);
}

#[test]
fn set_networks_follows_selected_name() {
    let mut app = App::new();
    app.set_networks(vec![wifi_net("a", 1, false, None), wifi_net("b", 1, false, None), wifi_net("c", 1, false, None)]);
    app.selected_index = 1;
    app.set_networks(vec![wifi_net("c", 1, false, None), wifi_net("x", 1, false, None), wifi_net("b", 1, false, None)]);
    assert_eq!(app.selected_index, 2);
    assert_eq!(app.selected_network().unwrap().name, "b");
}

#[test]
fn set_networks_clamps_when_name_is_gone() {
    let mut app = App::new();
    app.set_networks(vec![wifi_net("a", 1, false, None), wifi_net("b", 1, false, None), wifi_net("c", 1, false, None)]);
    app.selected_index = 2;
    app.set_networks(vec![wifi_net("x", 1, false, None)]);
    assert_eq!(app.selected_index, 0);
    app.set_networks(vec![]);
    assert_eq!(app.selected_index, 0);
    assert!(app.selected_network().is_none());
}

#[test]
fn selected_network_cloned_copies_entry() {
    let mut app = App::new();
    assert!(app.selected_network_cloned().is_none());
    app.set_networks(vec![wired_net("eth0", true)]);
    let e = app.selected_network_cloned().unwrap();
    assert_eq!(e.name, "eth0");
    assert!(e.is_connected);
    assert_eq!(e.ip_address.as_deref(), Some("192.168.1.2/24"));
}

#[test]
fn any_connected_detection() {
    let mut app = App::new();
    assert!(!app.is_any_connected());
    app.set_networks(vec![wifi_net("a", 1, false, None), wifi_net("b", 1, true, None)]);
    assert!(app.is_any_connected());
}

#[test]
fn speed_test_needs_a_connection() {
    let mut app = App::new();
    app.set_networks(vec![wifi_net("a", 1, false, None)]);
    app.toggle_speed_test();
    assert_eq!(app.view_mode, ViewMode::Normal);
    assert_eq!(app.status_message, "network not connected");
}

#[test]
fn speed_test_toggles_and_restarts() {
    let mut app = App::new();
    app.set_networks(vec![wifi_net("a", 1, true, None)]);
    app.toggle_speed_test();
    assert_eq!(app.view_mode, ViewMode::SpeedTest);
    assert!(app.speed_test.is_running);
    assert_eq!(app.speed_test.progress_pct, 0);
    assert_eq!(app.speed_test.stage, "Measuring latency...");
    app.toggle_speed_test();
    assert_eq!(app.view_mode, ViewMode::Normal);
    assert_eq!(app.status_message, "Returned to networks");
}

#[test]
fn toggle_qr_forgets_password_when_hidden() {
    let mut app = App::new();
    app.toggle_qr();
    assert!(app.show_qr);
    app.qr_password = Some("pw".to_string());
    app.toggle_qr();
    assert!(!app.show_qr);
    assert!(app.qr_password.is_none());
}

#[test]
fn toggle_qr_twice_restores_visibility() {
    let mut app = App::new();
    app.qr_password = Some("pw".to_string());
    app.toggle_qr();
    app.toggle_qr();
    assert!(!app.show_qr);
    assert!(app.qr_password.is_none());
}

#[test]
fn password_modal_open_and_close() {
    let mut app = App::new();
    app.password_modal.input = "old".to_string();
    app.password_modal.error = Some("bad".to_string());
    app.open_password_modal(wifi_net("Cafe", 50, false, None));
    assert_eq!(app.status_message, "Password required for Cafe");
    assert!(app.password_modal.open);
    assert_eq!(app.password_modal.entry.as_ref().unwrap().name, "Cafe");
    assert!(app.password_modal.input.is_empty());
    assert!(app.password_modal.error.is_none());
    app.password_modal.input = "typed".to_string();
    app.close_password_modal();
    assert!(!app.password_modal.open);
    assert!(app.password_modal.entry.is_none());
    assert!(app.password_modal.input.is_empty());
    assert!(app.password_modal.error.is_none());
}

#[test]
fn tick_advances_animation_only_outside_speed_test() {
    let mut app = App::new();
    app.on_tick();
    assert_eq!(app.anim_frame, 1);
    assert_eq!(app.speed_test.progress_pct, 0);
    app.anim_frame = usize::MAX;
    app.on_tick();
    assert_eq!(app.anim_frame, 0);
}

#[test]
fn speed_test_stages_and_readings() {
    let mut app = App::new();
    app.set_networks(vec![wifi_net("a", 1, true, None)]);
    app.toggle_speed_test();
    app.on_tick();
    // frame 1: ping 14.2 + 1 * 0.4
    assert_eq!(app.speed_test.progress_pct, 2);
    assert_eq!(app.speed_test.stage, "Measuring ping & jitter...");
    assert_eq!(app.speed_test.ping_tenth_ms, Some(146));
    for _ in 0..12 {
        app.on_tick();
    }
    // frame 13, progress 26: download 184.6 + (13 % 7) * 1.8
    assert_eq!(app.speed_test.progress_pct, 26);
    assert_eq!(app.speed_test.stage, "Testing Download speed...");
    assert_eq!(app.speed_test.download_tenth_mbps, Some(1846 + 6 * 18));
    for _ in 0..20 {
        app.on_tick();
    }
    // frame 33, progress 66: upload 42.1 + (33 % 4) * 0.9
    assert_eq!(app.speed_test.progress_pct, 66);
    assert_eq!(app.speed_test.stage, "Testing Upload speed...");
    assert_eq!(app.speed_test.upload_tenth_mbps, Some(421 + 9));
    for _ in 0..17 {
        app.on_tick();
    }
    assert_eq!(app.speed_test.progress_pct, 100);
    assert!(app.speed_test.is_running);
    app.on_tick();
    assert!(!app.speed_test.is_running);
    assert_eq!(app.speed_test.stage, "Complete");
    app.on_tick();
    assert_eq!(app.speed_test.progress_pct, 100);
}

#[test]
fn speed_test_completes_within_fifty_one_ticks() {
    let mut app = App::new();
    app.view_mode = ViewMode::SpeedTest;
    app.start_speed_test();
    let mut last = 0;
    for _ in 0..51 {
        app.on_tick();
        assert!(app.speed_test.progress_pct >= last);
        assert!(app.speed_test.progress_pct <= 100);
        last = app.speed_test.progress_pct;
    }
    assert!(!app.speed_test.is_running);
}

#[test]
fn ui_event_values_carry_data() {
    let e = UiEvent::Status("x".to_string());
    assert!(matches!(e, UiEvent::Status(ref s) if s == "x"));
}
