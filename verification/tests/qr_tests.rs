use qrcode::{EcLevel, QrCode};
use wtui::qr::{escape_wifi_string, generate_wifi_qr_lines, qr_lines, wifi_payload, HalfBlock};

fn unescape(s: &str) -> String {
    let mut out = String::new();
    let mut it = s.chars();
    while let Some(c) = it.next() {
        if c == '\\' {
            if let Some(n) = it.next() {
                out.push(n);
                continue;
            }
        }
        out.push(c);
    }
    out
}

#[test]
fn escaping_special_characters() {
    assert_eq!(escape_wifi_string(r#"a;b:c,d"e\f"#), r#"a\;b\:c\,d\"e\\f"#);
    assert_eq!(escape_wifi_string("plain"), "plain");
    assert_eq!(escape_wifi_string(""), "");
}

#[test]
fn escaping_round_trips() {
    for s in ["", "x", r"\\", r#";:,"\"#, "Café;Wi-Fi", r"trail\"] {
        assert_eq!(unescape(&escape_wifi_string(s)), s);
    }
}

#[test]
fn payload_by_security() {
    assert_eq!(wifi_payload("Home", "pa;ss", "WPA2-PSK"), r"WIFI:T:WPA;S:Home;P:pa\;ss;;");
    assert_eq!(wifi_payload("Home", "pw", "wpa3-sae"), "WIFI:T:WPA;S:Home;P:pw;;");
    assert_eq!(wifi_payload("Old", "k", "WEP"), "WIFI:T:WEP;S:Old;P:k;;");
    assert_eq!(wifi_payload("Free:Net", "ignored", "Open"), r"WIFI:T:nopass;S:Free\:Net;;");
}

fn modules_of(payload: &str) -> (usize, Vec<bool>) {
    let code = QrCode::with_error_correction_level(payload.as_bytes(), EcLevel::M).unwrap();
    let w = code.width();
    let m = code.into_colors().into_iter().map(|c| c == qrcode::Color::Dark).collect();
    (w, m)
}

#[test]
fn qr_drawing_matches_symbol() {
    let lines = generate_wifi_qr_lines("Home", "password1", "WPA2-PSK").unwrap();
    let (w, m) = modules_of("WIFI:T:WPA;S:Home;P:password1;;");
    assert_eq!(lines.len(), (w + 1) / 2 + 2);
    let light = HalfBlock { top_dark: false, bottom_dark: false };
    for line in &lines {
        assert_eq!(line.len(), w + 4);
    }
    assert!(lines[0].iter().all(|c| *c == light));
    assert!(lines[lines.len() - 1].iter().all(|c| *c == light));
    for (l, line) in lines.iter().enumerate().skip(1).take((w + 1) / 2) {
        let y = 2 * (l - 1);
        assert_eq!(&line[..2], &[light, light]);
        assert_eq!(&line[w + 2..], &[light, light]);
        for x in 0..w {
            let bottom = if y + 1 < w { m[(y + 1) * w + x] } else { false };
            assert_eq!(line[x + 2], HalfBlock { top_dark: m[y * w + x], bottom_dark: bottom });
        }
    }
}

#[test]
fn qr_drawing_of_small_symbol() {
    // a 3x3 pattern: odd width leaves a light lower half on the last line
    let m = vec![true, false, true, false, true, false, true, true, false];
    let lines = qr_lines(3, &m);
    assert_eq!(lines.len(), 4);
    let l = HalfBlock { top_dark: false, bottom_dark: false };
    assert_eq!(lines[1], vec![l, l,
        HalfBlock { top_dark: true, bottom_dark: false },
        HalfBlock { top_dark: false, bottom_dark: true },
        HalfBlock { top_dark: true, bottom_dark: false }, l, l]);
    assert_eq!(lines[2], vec![l, l,
        HalfBlock { top_dark: true, bottom_dark: false },
        HalfBlock { top_dark: true, bottom_dark: false },
        HalfBlock { top_dark: false, bottom_dark: false }, l, l]);
}

#[test]
fn qr_refuses_oversized_payload() {
    let huge = "x".repeat(5000);
    assert_eq!(generate_wifi_qr_lines(&huge, "password1", "WPA2-PSK").unwrap_err(), "Failed to generate QR code.");
}
