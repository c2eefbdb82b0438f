//! What the screens show: the theme's colors, the text of each network row,
//! of the details pane, of the QR pane and of the speed test readings.

use vstd::prelude::*;
use crate::app::{App, NetworkEntry, NetworkKind};
use crate::qr::{HalfBlock, generate_wifi_qr_lines, is_wifi_qr_drawing};
use crate::text::{decimal, pad_end, pad_end_seq, pad_start, pad_start_seq, push_char, push_decimal};

verus! {

/// A terminal color: the terminal's default, or a 24-bit color.
#[derive(Debug, Clone, Copy, PartialEq, Eq, Structural)]
pub enum ThemeColor {
    Reset,
    Rgb(u8, u8, u8),
}

/// The Catppuccin Mocha palette of the interface.
pub struct Theme;

impl Theme {
    /// The background: the terminal's own.
    pub fn bg() -> (c: ThemeColor)
        ensures
            c == ThemeColor::Reset,
    {
        ThemeColor::Reset
    }

    /// Slate, muted.
    pub fn border() -> (c: ThemeColor)
        ensures
            c == ThemeColor::Rgb(108, 112, 134),
    {
        ThemeColor::Rgb(108, 112, 134)
    }

    /// Soft blue.
    pub fn primary() -> (c: ThemeColor)
        ensures
            c == ThemeColor::Rgb(137, 180, 250),
    {
        ThemeColor::Rgb(137, 180, 250)
    }

    /// Mauve.
    pub fn accent() -> (c: ThemeColor)
        ensures
            c == ThemeColor::Rgb(203, 166, 247),
    {
        ThemeColor::Rgb(203, 166, 247)
    }

    /// Green.
    pub fn success() -> (c: ThemeColor)
        ensures
            c == ThemeColor::Rgb(166, 227, 161),
    {
        ThemeColor::Rgb(166, 227, 161)
    }

    /// Yellow.
    pub fn warning() -> (c: ThemeColor)
        ensures
            c == ThemeColor::Rgb(249, 226, 175),
    {
        ThemeColor::Rgb(249, 226, 175)
    }

    /// Foreground white.
    pub fn text() -> (c: ThemeColor)
        ensures
            c == ThemeColor::Rgb(205, 214, 244),
    {
        ThemeColor::Rgb(205, 214, 244)
    }

    /// Dim text.
    pub fn muted() -> (c: ThemeColor)
        ensures
            c == ThemeColor::Rgb(147, 153, 178),
    {
        ThemeColor::Rgb(147, 153, 178)
    }

    /// Surface, for the selected row.
    pub fn highlight() -> (c: ThemeColor)
        ensures
            c == ThemeColor::Rgb(49, 50, 68),
    {
        ThemeColor::Rgb(49, 50, 68)
    }
}

/// The four-step signal meter for a strength in percent.
pub open spec fn signal_meter_spec(pct: u8) -> Seq<char> {
    if pct <= 24 {
        "▂___"@
    } else if pct <= 49 {
        "▂▄__"@
    } else if pct <= 74 {
        "▂▄▆_"@
    } else {
        "▂▄▆█"@
    }
}

/// The signal meter shown next to a Wi-Fi network.
pub fn signal_meter(pct: u8) -> (r: &'static str)
    ensures
        r@ == signal_meter_spec(pct),
{
    if pct <= 24 {
        "▂___"
    } else if pct <= 49 {
        "▂▄__"
    } else if pct <= 74 {
        "▂▄▆_"
    } else {
        "▂▄▆█"
    }
}

/// The texts of one row of the network list.
#[derive(Debug)]
pub struct NetworkRow {
    /// `(c) ` for the connected network, four spaces otherwise.
    pub status_prefix: String,
    /// The name, left-aligned in 20 columns.
    pub name: String,
    /// The kind, right-aligned in 8 columns, then a space.
    pub kind: String,
    /// Signal strength and meter (Wi-Fi only).
    pub signal: String,
}

/// The kind column before alignment: `Eth [SPEEDM]` or `Wi-Fi`.
pub open spec fn kind_text(k: NetworkKind) -> Seq<char> {
    match k {
        NetworkKind::Wired { speed, .. } => "Eth ["@ + decimal(speed as nat) + "M]"@,
        NetworkKind::Wireless { .. } => "Wi-Fi"@,
    }
}

/// The signal column: `PCT% METER` for Wi-Fi, empty for a wired interface.
pub open spec fn signal_text(k: NetworkKind) -> Seq<char> {
    match k {
        NetworkKind::Wired { .. } => Seq::empty(),
        NetworkKind::Wireless { signal, .. } => decimal(signal as nat) + "% "@ + signal_meter_spec(
            signal,
        ),
    }
}

/// The texts of a network's row in the list.
pub fn network_row(net: &NetworkEntry) -> (r: NetworkRow)
    ensures
        r.status_prefix@ == (if net.is_connected {
            "(c) "@
        } else {
            "    "@
        }),
        r.name@ == pad_end_seq(net.name@, 20),
        r.kind@ == pad_start_seq(kind_text(net.kind), 8) + " "@,
        r.signal@ == signal_text(net.kind),
{
    let status_prefix = if net.is_connected {
        String::from_str("(c) ")
    } else {
        String::from_str("    ")
    };
    let (kind_str, signal) = match &net.kind {
        NetworkKind::Wired { speed, .. } => {
            let mut k = String::from_str("Eth [");
            push_decimal(&mut k, *speed as u64);
            k.append("M]");
            (k, String::new())
        },
        NetworkKind::Wireless { signal, .. } => {
            let mut s = String::new();
            push_decimal(&mut s, *signal as u64);
            s.append("% ");
            s.append(signal_meter(*signal));
            (String::from_str("Wi-Fi"), s)
        },
    };
    let mut kind = pad_start(kind_str.as_str(), 8);
    kind.append(" ");
    NetworkRow { status_prefix, name: pad_end(net.name.as_str(), 20), kind, signal }
}

/// The texts of the details pane for the selected network.
#[derive(Debug)]
pub struct NetworkDetails {
    pub security: String,
    pub bssid: String,
    pub ip_address: String,
    pub gateway: String,
    pub autoconnect: String,
    pub action: String,
}

/// The texts of the details pane: security and BSSID (`802.3 Wired` and `N/A`
/// for a wired interface), address and gateway or their placeholders, the
/// autoconnect state and the action of the `c` key.
pub fn network_details(net: &NetworkEntry) -> (d: NetworkDetails)
    ensures
        match net.kind {
            NetworkKind::Wireless { security, bssid, .. } => d.security@ == security@ && d.bssid@
                == bssid@,
            NetworkKind::Wired { .. } => d.security@ == "802.3 Wired"@ && d.bssid@ == "N/A"@,
        },
        d.ip_address@ == (match net.ip_address {
            Some(a) => a@,
            None => "No IP assigned"@,
        }),
        d.gateway@ == (match net.gateway {
            Some(g) => g@,
            None => "None"@,
        }),
        d.autoconnect@ == (if net.autoconnect {
            "ENABLED"@
        } else {
            "DISABLED"@
        }),
        d.action@ == (if net.is_connected {
            "Disconnect"@
        } else {
            "Connect"@
        }),
{
    let (security, bssid) = match &net.kind {
        NetworkKind::Wireless { security, bssid, .. } => (security.clone(), bssid.clone()),
        NetworkKind::Wired { .. } => (String::from_str("802.3 Wired"), String::from_str("N/A")),
    };
    let ip_address = match &net.ip_address {
        Some(a) => a.clone(),
        None => String::from_str("No IP assigned"),
    };
    let gateway = match &net.gateway {
        Some(g) => g.clone(),
        None => String::from_str("None"),
    };
    let autoconnect = if net.autoconnect {
        String::from_str("ENABLED")
    } else {
        String::from_str("DISABLED")
    };
    let action = if net.is_connected {
        String::from_str("Disconnect")
    } else {
        String::from_str("Connect")
    };
    NetworkDetails { security, bssid, ip_address, gateway, autoconnect, action }
}

/// The password line of the QR pane.
pub fn qr_password_label(password: &str) -> (r: String)
    ensures
        r@ == (if password@.len() == 0 {
            "<None / Permission Denied>"@
        } else {
            password@
        }),
{
    if password.unicode_len() == 0 {
        String::from_str("<None / Permission Denied>")
    } else {
        String::from_str(password)
    }
}

/// What the QR pane shows.
pub enum QrPane {
    /// Sharing is off: how to turn it on.
    Inactive,
    /// The code of the selected Wi-Fi network, under it the network's name
    /// and the password line; `password_known` tells whether a password was
    /// loaded (the line is then shown as a success, otherwise as a warning).
    Code {
        drawing: Result<Vec<Vec<HalfBlock>>, String>,
        ssid: String,
        password_label: String,
        password_known: bool,
    },
    /// The selection is not a Wi-Fi network: codes are only for Wi-Fi.
    WifiOnly,
}

/// The password the QR code carries: the loaded one, or none.
pub open spec fn qr_password_spec(app: App) -> Seq<char> {
    match app.qr_password {
        Some(p) => p@,
        None => Seq::empty(),
    }
}

/// What the QR pane shows for the state `app`.
pub fn qr_pane(app: &App) -> (p: QrPane)
    ensures
        !app.show_qr ==> p is Inactive,
        app.show_qr ==> match app.selected_spec() {
            Some(e) => match e.kind {
                NetworkKind::Wireless { security, .. } => p matches QrPane::Code {
                    drawing,
                    ssid,
                    password_label,
                    password_known,
                } && is_wifi_qr_drawing(e.name@, qr_password_spec(*app), security@, drawing)
                    && ssid@ == e.name@ && password_label@ == (if qr_password_spec(*app).len()
                    == 0 {
                    "<None / Permission Denied>"@
                } else {
                    qr_password_spec(*app)
                }) && password_known == (qr_password_spec(*app).len() > 0),
                NetworkKind::Wired { .. } => p is WifiOnly,
            },
            None => p is WifiOnly,
        },
{
    if !app.show_qr {
        return QrPane::Inactive;
    }
    match app.selected_network() {
        Some(net) => match &net.kind {
            NetworkKind::Wireless { security, .. } => {
                let password: &str = match &app.qr_password {
                    Some(p) => p.as_str(),
                    None => "",
                };
                proof {
                    reveal_strlit("");
                }
                let drawing = generate_wifi_qr_lines(net.name.as_str(), password, security.as_str());
                QrPane::Code {
                    drawing,
                    ssid: net.name.clone(),
                    password_label: qr_password_label(password),
                    password_known: password.unicode_len() > 0,
                }
            },
            NetworkKind::Wired { .. } => QrPane::WifiOnly,
        },
        None => QrPane::WifiOnly,
    }
}

/// Cells of the progress bar.
pub const PROGRESS_BAR_CELLS: usize = 24;

/// The filled and empty cells of the progress bar for a percentage.
pub fn progress_cells(pct: u16) -> (r: (usize, usize))
    ensures
        r.0 == pct as int * 24 / 100,
        r.1 == (if r.0 <= 24 {
            24 - r.0
        } else {
            0
        }),
{
    let filled = (pct as usize) * PROGRESS_BAR_CELLS / 100;
    let empty = if filled <= PROGRESS_BAR_CELLS {
        PROGRESS_BAR_CELLS - filled
    } else {
        0
    };
    (filled, empty)
}

/// A tenths value with one decimal: `142` is `14.2`.
pub open spec fn tenths_text(v: u32) -> Seq<char> {
    decimal((v / 10) as nat) + seq!['.'] + decimal((v % 10) as nat)
}

fn push_tenths(s: &mut String, v: u32)
    ensures
        final(s)@ == old(s)@ + tenths_text(v),
{
    push_decimal(s, (v / 10) as u64);
    push_char(s, '.');
    push_decimal(s, (v % 10) as u64);
}

/// The latency reading: `14.2 ms`, or `---` before it is measured.
pub fn ping_text(v: Option<u32>) -> (r: String)
    ensures
        r@ == (match v {
            Some(t) => tenths_text(t) + " ms"@,
            None => "---"@,
        }),
{
    match v {
        Some(t) => {
            let mut s = String::new();
            push_tenths(&mut s, t);
            s.append(" ms");
            s
        },
        None => String::from_str("---"),
    }
}

/// A throughput reading with two decimals: `184.60 Mbps`, or `---`.
pub fn rate_text(v: Option<u32>) -> (r: String)
    ensures
        r@ == (match v {
            Some(t) => tenths_text(t) + "0 Mbps"@,
            None => "---"@,
        }),
{
    match v {
        Some(t) => {
            let mut s = String::new();
            push_tenths(&mut s, t);
            s.append("0 Mbps");
            s
        },
        None => String::from_str("---"),
    }
}

/// The end of the progress bar with the percentage: `] PCT%  `, the number
/// right-aligned in three columns.
pub fn progress_text(pct: u16) -> (r: String)
    ensures
        r@ == "] "@ + pad_start_seq(decimal(pct as nat), 3) + "%  "@,
{
    let n = crate::text::decimal_string(pct as u64);
    let mut r = String::from_str("] ");
    let p = pad_start(n.as_str(), 3);
    r.append(p.as_str());
    r.append("%  ");
    r
}

/// The stage in parentheses.
pub fn stage_text(stage: &str) -> (r: String)
    ensures
        r@ == "("@ + stage@ + ")"@,
{
    crate::text::join3("(", stage, ")")
}

} // verus!
