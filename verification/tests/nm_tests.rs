use wtui::app::{NetworkEntry, NetworkKind};
use wtui::nm::{
    access_point_object, address_with_prefix, auth_script, connect_after_search, connect_start,
    first_secret, infer_key_mgmt, is_saved_wifi_for, new_wifi_settings, parse_security,
    password_prompt_target, password_update_fields, prompt_password_result, secret_file_path,
    shell_quote_escape, specific_object, terminal_command, uuid_from_clock, validate_wifi_password,
    wait_step, ConnectStep, SettingValue, SettingsSection, WaitAction, WaitEvent, WAIT_POLL_MS,
};

fn nm_wifi(security: &str, path: Option<&str>, ap: Option<&str>) -> NetworkEntry {
    NetworkEntry {
        name: "Cafe".to_string(),
        kind: NetworkKind::Wireless {
            ssid: "Cafe".to_string(),
            bssid: "00:11:22:33:44:55".to_string(),
            signal: 70,
            security: security.to_string(),
        },
        is_connected: false,
        autoconnect: false,
        ip_address: None,
        gateway: None,
        dbus_path: "/dev/2".to_string(),
        connection_path: path.map(|p| p.to_string()),
        ap_path: ap.map(|p| p.to_string()),
    }
}

fn nm_wired(path: Option<&str>) -> NetworkEntry {
    NetworkEntry {
        name: "eth0".to_string(),
        kind: NetworkKind::Wired { interface: "eth0".to_string(), speed: 100 },
        is_connected: false,
        autoconnect: true,
        ip_address: None,
        gateway: None,
        dbus_path: "/dev/1".to_string(),
        connection_path: path.map(|p| p.to_string()),
        ap_path: None,
    }
}

fn field<'a>(s: &'a SettingsSection, key: &str) -> &'a SettingValue {
    &s.fields.iter().find(|f| f.key == key).unwrap().value
}

#[test]
fn parse_security_classes() {
    assert_eq!(parse_security(0, 0), "Open");
    assert_eq!(parse_security(0x100, 0), "WPA2-PSK");
    assert_eq!(parse_security(0, 0x100), "WPA2-PSK");
    assert_eq!(parse_security(0, 0x400), "WPA3-SAE");
    assert_eq!(parse_security(0, 0x500), "WPA2-PSK");
    assert_eq!(parse_security(0x200, 0x100), "WPA-Enterprise");
    assert_eq!(parse_security(0, 0x600), "WPA-Enterprise");
    assert_eq!(parse_security(0x8, 0), "WPA2-PSK");
    assert_eq!(parse_security(0, 0x1), "WPA2-PSK");
}

#[test]
fn key_management_by_security() {
    assert_eq!(infer_key_mgmt("WPA3-SAE"), "sae");
    assert_eq!(infer_key_mgmt("WEP"), "none");
    assert_eq!(infer_key_mgmt("WPA2-PSK"), "wpa-psk");
    assert_eq!(infer_key_mgmt(""), "wpa-psk");
}

#[test]
fn password_validation_rules() {
    assert!(validate_wifi_password("Open", "").is_ok());
    assert_eq!(
        validate_wifi_password("WPA-Enterprise", "whatever123").unwrap_err(),
        "WPA-Enterprise is not supported by this TUI yet"
    );
    assert!(validate_wifi_password("WEP", "x").is_ok());
    assert!(validate_wifi_password("WPA3-SAE", "x").is_ok());
    assert!(validate_wifi_password("WPA2-PSK", &"a".repeat(64)).is_ok());
    assert!(validate_wifi_password("WPA2-PSK", "12345678").is_ok());
    assert!(validate_wifi_password("WPA2-PSK", &"b".repeat(63)).is_ok());
    assert_eq!(
        validate_wifi_password("WPA2-PSK", "1234567").unwrap_err(),
        "WPA/WPA2 password must be 8-63 characters, or exactly 64 hex characters"
    );
    assert!(validate_wifi_password("WPA2-PSK", &"c".repeat(65)).is_err());
    // lengths are counted in UTF-8 bytes: four two-byte characters are 8 bytes
    assert!(validate_wifi_password("WPA2-PSK", "éééé").is_ok());
    assert!(validate_wifi_password("WPA2-PSK", "ééé").is_err());
}

#[test]
fn uuid_from_clock_formats_fields() {
    assert_eq!(uuid_from_clock(0, 0), "00000000-0000-4000-8000-000000000000");
    let now: u128 = 0x0123_4567_89ab_cdef_0011_2233_4455_6677;
    // a = low 32 bits, b = next 16, c = next 12, d = pid ^ bits 64.., e = bits 80..
    assert_eq!(uuid_from_clock(now, 0x1), "44556677-2233-4011-cdee-0123456789ab");
}

#[test]
fn uuid_shape_holds() {
    for (now, pid) in [(0u128, 0u32), (u128::MAX, u32::MAX), (123_456_789_987_654_321, 4242)] {
        let u = uuid_from_clock(now, pid);
        let c: Vec<char> = u.chars().collect();
        assert_eq!(c.len(), 36);
        assert_eq!((c[8], c[13], c[18], c[23]), ('-', '-', '-', '-'));
        assert_eq!(c[14], '4');
        assert!("89abcdef".contains(c[19]));
    }
}

#[test]
fn open_network_settings() {
    let s = new_wifi_settings("Cafe", "Open", None, "u-1".to_string()).unwrap();
    assert_eq!(s.len(), 2);
    assert_eq!(s[0].name, "connection");
    assert!(matches!(field(&s[0], "id"), SettingValue::Str(v) if v == "Cafe"));
    assert!(matches!(field(&s[0], "uuid"), SettingValue::Str(v) if v == "u-1"));
    assert!(matches!(field(&s[0], "type"), SettingValue::Str(v) if v == "802-11-wireless"));
    assert!(matches!(field(&s[0], "autoconnect"), SettingValue::Bool(true)));
    assert_eq!(s[1].name, "802-11-wireless");
    assert!(matches!(field(&s[1], "ssid"), SettingValue::Bytes(v) if v == b"Cafe"));
    assert!(matches!(field(&s[1], "mode"), SettingValue::Str(v) if v == "infrastructure"));
}

#[test]
fn secured_network_settings() {
    let s = new_wifi_settings("Cafe", "WPA2-PSK", Some("password1"), "u".to_string()).unwrap();
    assert_eq!(s.len(), 3);
    assert_eq!(s[2].name, "802-11-wireless-security");
    assert_eq!(s[2].fields.len(), 2);
    assert!(matches!(field(&s[2], "key-mgmt"), SettingValue::Str(v) if v == "wpa-psk"));
    assert!(matches!(field(&s[2], "psk"), SettingValue::Str(v) if v == "password1"));
    let w = new_wifi_settings("Old", "WEP", Some("k"), "u".to_string()).unwrap();
    assert_eq!(w[2].fields.len(), 3);
    assert!(matches!(field(&w[2], "key-mgmt"), SettingValue::Str(v) if v == "none"));
    assert!(matches!(field(&w[2], "wep-key0"), SettingValue::Str(v) if v == "k"));
    assert!(matches!(field(&w[2], "wep-key-type"), SettingValue::U32(1)));
}

#[test]
fn settings_errors() {
    assert_eq!(
        new_wifi_settings("Cafe", "WPA2-PSK", None, "u".to_string()).unwrap_err(),
        "A password is required for this network"
    );
    assert_eq!(
        new_wifi_settings("Cafe", "WPA2-PSK", Some(""), "u".to_string()).unwrap_err(),
        "A password is required for this network"
    );
    assert_eq!(
        new_wifi_settings("Cafe", "WPA2-PSK", Some("short"), "u".to_string()).unwrap_err(),
        "WPA/WPA2 password must be 8-63 characters, or exactly 64 hex characters"
    );
}

#[test]
fn password_update_keeps_existing_key_mgmt() {
    let f = password_update_fields(Some("none".to_string()), "WPA2-PSK", "k1");
    assert_eq!(f.len(), 3);
    assert!(matches!(&f[1].value, SettingValue::Str(v) if v == "k1"));
    assert_eq!(f[1].key, "wep-key0");
    let g = password_update_fields(None, "WPA3-SAE", "pw");
    assert_eq!(g.len(), 2);
    assert!(matches!(&g[0].value, SettingValue::Str(v) if v == "sae"));
    assert_eq!(g[1].key, "psk");
}

#[test]
fn connect_steps() {
    assert!(matches!(connect_start(&nm_wifi("WPA-Enterprise", None, None), None),
        ConnectStep::Fail(m) if m == "WPA-Enterprise is not supported by this TUI yet"));
    assert!(matches!(connect_start(&nm_wifi("WPA2-PSK", None, None), Some("short")),
        ConnectStep::Fail(m) if m.starts_with("WPA/WPA2 password")));
    assert!(matches!(connect_start(&nm_wifi("WPA2-PSK", None, None), None), ConnectStep::FindSaved));
    assert!(matches!(connect_start(&nm_wifi("WPA2-PSK", Some("/s/3"), None), Some("longenough")),
        ConnectStep::Activate { path, update_password: true } if path == "/s/3"));
    assert!(matches!(connect_start(&nm_wired(Some("/s/1")), Some("ignored!")),
        ConnectStep::Activate { path, update_password: false } if path == "/s/1"));
    assert!(matches!(connect_start(&nm_wired(None), None),
        ConnectStep::Fail(m) if m == "No saved connection profile available"));
    assert!(matches!(connect_after_search(None, Some("/s/9".to_string())),
        ConnectStep::Activate { path, update_password: false } if path == "/s/9"));
    assert!(matches!(connect_after_search(Some("x"), None), ConnectStep::Create));
}

#[test]
fn activation_objects() {
    assert_eq!(specific_object(&nm_wifi("Open", None, Some("/ap/1"))), "/ap/1");
    assert_eq!(specific_object(&nm_wifi("Open", None, Some(""))), "/");
    assert_eq!(specific_object(&nm_wifi("Open", None, None)), "/");
    assert_eq!(specific_object(&nm_wired(None)), "/");
    assert_eq!(access_point_object(&nm_wifi("Open", None, Some("/ap/7"))), "/ap/7");
}

#[test]
fn saved_wifi_matching() {
    assert!(is_saved_wifi_for(Some("802-11-wireless"), Some("Cafe"), "Cafe"));
    assert!(!is_saved_wifi_for(Some("802-3-ethernet"), Some("Cafe"), "Cafe"));
    assert!(!is_saved_wifi_for(Some("802-11-wireless"), Some("Other"), "Cafe"));
    assert!(!is_saved_wifi_for(None, Some("Cafe"), "Cafe"));
}

#[test]
fn address_formatting() {
    assert_eq!(address_with_prefix("10.0.0.5", 24), "10.0.0.5/24");
    assert_eq!(address_with_prefix("fe80::1", 0), "fe80::1/0");
}

#[test]
fn secret_selection() {
    assert_eq!(first_secret(&vec![None, Some(String::new()), Some("k".to_string())]), Some("k".to_string()));
    assert_eq!(first_secret(&vec![Some("a".to_string()), Some("b".to_string())]), Some("a".to_string()));
    assert_eq!(first_secret(&vec![None, Some(String::new())]), None);
}

#[test]
fn prompt_target_and_escape() {
    assert_eq!(password_prompt_target(Some("u".into()), Some("i".into())).unwrap(), "u");
    assert_eq!(password_prompt_target(None, Some("i".into())).unwrap(), "i");
    assert_eq!(password_prompt_target(None, None).unwrap_err(), "Could not determine connection UUID or ID");
    assert_eq!(shell_quote_escape("Bob's Wi-Fi"), "Bob'\\''s Wi-Fi");
    assert_eq!(shell_quote_escape("plain"), "plain");
    assert_eq!(secret_file_path(42), "/dev/shm/.wtui_secret_42");
}

#[test]
fn auth_script_text() {
    let s = auth_script("abc", "/tmp/f");
    assert_eq!(
        s,
        "echo -e '\\033[1;34m:: NetworkManager Auth Required\\033[0m'; touch '/tmp/f' && chmod 600 '/tmp/f'; if sudo nmcli -s -g 802-11-wireless-security.psk connection show 'abc' > '/tmp/f'; then exit 0; else echo -e '\\033[1;31mAuthentication failed or cancelled.\\033[0m'; sleep 1.2; exit 1; fi"
    );
}

#[test]
fn terminal_commands() {
    let k = terminal_command("kitty", "S");
    assert_eq!(k.program, "kitty");
    assert_eq!(k.args, vec!["--title", "wtui-auth", "--", "bash", "-c", "S"]);
    let a = terminal_command("alacritty", "S");
    assert_eq!(a.args, vec!["--title", "wtui-auth", "-e", "bash", "-c", "S"]);
    let f = terminal_command("foot", "S");
    assert_eq!(f.args, vec!["--title", "wtui-auth", "bash", "-c", "S"]);
    let x = terminal_command("xterm", "S");
    assert_eq!(x.program, "xterm");
    assert_eq!(x.args, vec!["-e", "bash", "-c", "S"]);
}

#[test]
fn prompt_results() {
    assert_eq!(prompt_password_result(true, Some("  hunter22\n".to_string())).unwrap(), "hunter22");
    assert_eq!(
        prompt_password_result(false, Some("hunter22".to_string())).unwrap_err(),
        "Password prompt failed or returned empty"
    );
    assert!(prompt_password_result(true, Some(" \n".to_string())).is_err());
    assert!(prompt_password_result(true, None).is_err());
}

fn read_shell_word(t: &str) -> Option<String> {
    let c: Vec<char> = t.chars().collect();
    let mut out = String::new();
    let mut in_quotes = false;
    let mut i = 0;
    while i < c.len() {
        if in_quotes {
            if c[i] == '\'' {
                in_quotes = false;
            } else {
                out.push(c[i]);
            }
            i += 1;
        } else if c[i] == '\'' {
            in_quotes = true;
            i += 1;
        } else if c[i] == '\\' && i + 1 < c.len() {
            out.push(c[i + 1]);
            i += 2;
        } else {
            out.push(c[i]);
            i += 1;
        }
    }
    if in_quotes { None } else { Some(out) }
}

#[test]
fn quoted_target_reads_back() {
    for s in ["plain", "Bob's", "'", "''x'", "a\\b'c", ""] {
        let word = format!("'{}'", shell_quote_escape(s));
        assert_eq!(read_shell_word(&word).as_deref(), Some(s));
    }
}

#[test]
fn waiting_for_a_connection_change() {
    let up = WaitEvent::Clock { elapsed_ms: 0 };
    assert!(matches!(wait_step(true, "Home", 15000, &up), WaitAction::Fetch));
    let late = WaitEvent::Clock { elapsed_ms: 15000 };
    match wait_step(true, "Home", 15000, &late) {
        WaitAction::TimedOut(m) => {
            assert_eq!(m, "timed out waiting for NetworkManager to activate the connection")
        }
        other => panic!("unexpected {other:?}"),
    }
    match wait_step(false, "Home", 15000, &late) {
        WaitAction::TimedOut(m) => assert_eq!(m, "timed out waiting for NetworkManager to disconnect"),
        other => panic!("unexpected {other:?}"),
    }
    assert!(matches!(wait_step(true, "Home", 15000, &WaitEvent::Fetched(None)), WaitAction::Sleep));
    let mut home = nm_wifi("WPA2-PSK", None, None);
    home.name = "Home".to_string();
    home.is_connected = true;
    let listed = WaitEvent::Fetched(Some(vec![home.clone()]));
    assert!(matches!(wait_step(true, "Home", 15000, &listed), WaitAction::Done));
    assert!(matches!(wait_step(false, "Home", 15000, &listed), WaitAction::Sleep));
    home.is_connected = false;
    let gone = WaitEvent::Fetched(Some(vec![home]));
    assert!(matches!(wait_step(true, "Home", 15000, &gone), WaitAction::Sleep));
    assert!(matches!(wait_step(false, "Home", 15000, &gone), WaitAction::Done));
    assert_eq!(WAIT_POLL_MS, 500);
}
