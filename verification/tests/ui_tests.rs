use wtui::app::{App, NetworkEntry, NetworkKind};
use wtui::qr::generate_wifi_qr_lines;
use wtui::ui::{
    network_details, network_row, ping_text, progress_cells, progress_text, qr_pane,
    qr_password_label, rate_text, signal_meter, stage_text, QrPane, Theme, ThemeColor,
};

fn entry(kind: NetworkKind, connected: bool) -> NetworkEntry {
    NetworkEntry {
        name: "Home".to_string(),
        kind,
        is_connected: connected,
        autoconnect: connected,
        ip_address: if connected { Some("10.1.1.2/24".to_string()) } else { None },
        gateway: None,
        dbus_path: "/d".to_string(),
        connection_path: None,
        ap_path: None,
    }
}

#[test]
fn theme_colors() {
    assert_eq!(Theme::bg(), ThemeColor::Reset);
    assert_eq!(Theme::border(), ThemeColor::Rgb(108, 112, 134));
    assert_eq!(Theme::primary(), ThemeColor::Rgb(137, 180, 250));
    assert_eq!(Theme::accent(), ThemeColor::Rgb(203, 166, 247));
    assert_eq!(Theme::success(), ThemeColor::Rgb(166, 227, 161));
    assert_eq!(Theme::warning(), ThemeColor::Rgb(249, 226, 175));
    assert_eq!(Theme::text(), ThemeColor::Rgb(205, 214, 244));
    assert_eq!(Theme::muted(), ThemeColor::Rgb(147, 153, 178));
    assert_eq!(Theme::highlight(), ThemeColor::Rgb(49, 50, 68));
}

#[test]
fn signal_meter_steps() {
    assert_eq!(signal_meter(0), "▂___");
    assert_eq!(signal_meter(24), "▂___");
    assert_eq!(signal_meter(25), "▂▄__");
    assert_eq!(signal_meter(49), "▂▄__");
    assert_eq!(signal_meter(50), "▂▄▆_");
    assert_eq!(signal_meter(74), "▂▄▆_");
    assert_eq!(signal_meter(75), "▂▄▆█");
    assert_eq!(signal_meter(100), "▂▄▆█");
}

#[test]
fn rows_of_the_list() {
    let w = network_row(&entry(NetworkKind::Wired { interface: "eth0".into(), speed: 1000 }, true));
    assert_eq!(w.status_prefix, "(c) ");
    assert_eq!(w.name, format!("{:<20}", "Home"));
    assert_eq!(w.kind, format!("{:>8} ", "Eth [1000M]"));
    assert_eq!(w.signal, "");
    let f = network_row(&entry(
        NetworkKind::Wireless { ssid: "Home".into(), bssid: "b".into(), signal: 62, security: "Open".into() },
        false,
    ));
    assert_eq!(f.status_prefix, "    ");
    assert_eq!(f.kind, "   Wi-Fi ");
    assert_eq!(f.signal, "62% ▂▄▆_");
}

#[test]
fn long_names_are_not_cut() {
    let mut e = entry(NetworkKind::Wired { interface: "x".into(), speed: 10 }, false);
    e.name = "a-very-long-network-name-indeed".to_string();
    assert_eq!(network_row(&e).name, "a-very-long-network-name-indeed");
}

#[test]
fn details_pane() {
    let d = network_details(&entry(NetworkKind::Wired { interface: "eth0".into(), speed: 10 }, true));
    assert_eq!(d.security, "802.3 Wired");
    assert_eq!(d.bssid, "N/A");
    assert_eq!(d.ip_address, "10.1.1.2/24");
    assert_eq!(d.gateway, "None");
    assert_eq!(d.autoconnect, "ENABLED");
    assert_eq!(d.action, "Disconnect");
    let w = network_details(&entry(
        NetworkKind::Wireless { ssid: "Home".into(), bssid: "AA:BB".into(), signal: 1, security: "WPA2-PSK".into() },
        false,
    ));
    assert_eq!(w.security, "WPA2-PSK");
    assert_eq!(w.bssid, "AA:BB");
    assert_eq!(w.ip_address, "No IP assigned");
    assert_eq!(w.autoconnect, "DISABLED");
    assert_eq!(w.action, "Connect");
}

#[test]
fn qr_password_line() {
    assert_eq!(qr_password_label(""), "<None / Permission Denied>");
    assert_eq!(qr_password_label("pw"), "pw");
}

#[test]
fn progress_bar() {
    assert_eq!(progress_cells(0), (0, 24));
    assert_eq!(progress_cells(50), (12, 12));
    assert_eq!(progress_cells(99), (23, 1));
    assert_eq!(progress_cells(100), (24, 0));
    assert_eq!(progress_cells(200), (48, 0));
    assert_eq!(progress_text(7), "]   7%  ");
    assert_eq!(progress_text(100), "] 100%  ");
    assert_eq!(stage_text("Complete"), "(Complete)");
}

#[test]
fn readings() {
    assert_eq!(ping_text(None), "---");
    assert_eq!(ping_text(Some(142)), "14.2 ms");
    assert_eq!(ping_text(Some(158)), format!("{:.1} ms", 15.8));
    assert_eq!(rate_text(Some(1846)), "184.60 Mbps");
    assert_eq!(rate_text(Some(430)), format!("{:.2} Mbps", 43.0));
    assert_eq!(rate_text(None), "---");
}

#[test]
fn qr_pane_choices() {
    let mut app = App::new();
    assert!(matches!(qr_pane(&app), QrPane::Inactive));
    app.show_qr = true;
    assert!(matches!(qr_pane(&app), QrPane::WifiOnly));
    let wifi = NetworkKind::Wireless {
        ssid: "Home".to_string(),
        bssid: "aa".to_string(),
        signal: 50,
        security: "WPA2-PSK".to_string(),
    };
    app.networks = vec![entry(wifi, false)];
    app.selected_index = 0;
    match qr_pane(&app) {
        QrPane::Code { drawing, ssid, password_label, password_known } => {
            assert_eq!(ssid, "Home");
            assert_eq!(password_label, "<None / Permission Denied>");
            assert!(!password_known);
            assert_eq!(drawing, generate_wifi_qr_lines("Home", "", "WPA2-PSK"));
        }
        _ => panic!("expected a code"),
    }
    app.qr_password = Some("secret123".to_string());
    match qr_pane(&app) {
        QrPane::Code { drawing, password_label, password_known, .. } => {
            assert_eq!(password_label, "secret123");
            assert!(password_known);
            assert_eq!(drawing, generate_wifi_qr_lines("Home", "secret123", "WPA2-PSK"));
            assert_ne!(drawing, generate_wifi_qr_lines("Home", "", "WPA2-PSK"));
        }
        _ => panic!("expected a code"),
    }
    app.networks = vec![entry(NetworkKind::Wired { interface: "eth0".to_string(), speed: 1000 }, true)];
    assert!(matches!(qr_pane(&app), QrPane::WifiOnly));
    app.show_qr = false;
    assert!(matches!(qr_pane(&app), QrPane::Inactive));
}
