//! Wi-Fi sharing: the `WIFI:` payload that phones understand and the QR code
//! drawn from it as half-block terminal cells.

use vstd::prelude::*;
use crate::text::{chars_of, contains, push_char, seq_contains, to_uppercase, uppercase};

verus! {

// ---------------------------------------------------------------------------
// Payload
// ---------------------------------------------------------------------------

/// Characters that must be escaped with a backslash in a `WIFI:` field.
pub open spec fn is_wifi_special(c: char) -> bool {
    c == '\\' || c == ';' || c == ':' || c == ',' || c == '"'
}

/// How one character is written in a `WIFI:` field.
pub open spec fn wifi_piece(c: char) -> Seq<char> {
    if is_wifi_special(c) {
        seq!['\\', c]
    } else {
        seq![c]
    }
}

/// A `WIFI:` field with its special characters escaped.
pub open spec fn wifi_escape(s: Seq<char>) -> Seq<char>
    decreases s.len(),
{
    if s.len() == 0 {
        Seq::empty()
    } else {
        wifi_escape(s.drop_last()) + wifi_piece(s.last())
    }
}

/// Reads an escaped `WIFI:` field back: a backslash takes the next character
/// literally.
pub open spec fn wifi_unescape(s: Seq<char>) -> Seq<char>
    decreases s.len(),
{
    if s.len() == 0 {
        Seq::empty()
    } else if s[0] == '\\' && s.len() >= 2 {
        seq![s[1]] + wifi_unescape(s.skip(2))
    } else {
        seq![s[0]] + wifi_unescape(s.skip(1))
    }
}

/// Escapes `\\`, `;`, `:`, `,` and `"` with a backslash.
pub fn escape_wifi_string(s: &str) -> (r: String)
    ensures
        r@ == wifi_escape(s@),
{
    let v = chars_of(s);
    let mut out = String::new();
    let mut i: usize = 0;
    while i < v.len()
        invariant
            v@ == s@,
            i <= v@.len(),
            out@ == wifi_escape(v@.take(i as int)),
        decreases v.len() - i,
    {
        let c = v[i];
        if c == '\\' || c == ';' || c == ':' || c == ',' || c == '"' {
            push_char(&mut out, '\\');
        }
        push_char(&mut out, c);
        assert(v@.take(i + 1).drop_last() =~= v@.take(i as int));
        i = i + 1;
        assert(out@ =~= wifi_escape(v@.take(i as int)));
    }
    assert(v@.take(v@.len() as int) =~= v@);
    out
}

proof fn lemma_escape_concat(a: Seq<char>, b: Seq<char>)
    ensures
        wifi_escape(a + b) == wifi_escape(a) + wifi_escape(b),
    decreases b.len(),
{
    if b.len() == 0 {
        assert(a + b =~= a);
        assert(wifi_escape(a) + wifi_escape(b) =~= wifi_escape(a));
    } else {
        assert((a + b).drop_last() =~= a + b.drop_last());
        lemma_escape_concat(a, b.drop_last());
        assert(wifi_escape(a + b) =~= wifi_escape(a) + wifi_escape(b));
    }
}

/// Escaping loses nothing: reading an escaped field back gives the same
/// text, whatever it holds.
pub proof fn law_wifi_escape_round_trip(s: Seq<char>)
    ensures
        wifi_unescape(wifi_escape(s)) == s,
    decreases s.len(),
{
    if s.len() > 0 {
        let t = s.drop_first();
        assert(s =~= seq![s[0]] + t);
        lemma_escape_concat(seq![s[0]], t);
        assert(seq![s[0]].drop_last() =~= Seq::<char>::empty());
        assert(wifi_escape(Seq::<char>::empty()) == Seq::<char>::empty());
        assert(Seq::<char>::empty() + wifi_piece(s[0]) =~= wifi_piece(s[0]));
        assert(wifi_escape(seq![s[0]]) =~= wifi_piece(s[0]));
        law_wifi_escape_round_trip(t);
        let e = wifi_piece(s[0]) + wifi_escape(t);
        if is_wifi_special(s[0]) {
            assert(e.skip(2) =~= wifi_escape(t));
        } else {
            assert(e.skip(1) =~= wifi_escape(t));
        }
        assert(wifi_unescape(e) =~= s);
    }
}

/// The `WIFI:` payload for a network: `WPA` or `WEP` when the security label
/// names them (in any case), otherwise an open network without password.
pub open spec fn wifi_payload_spec(ssid: Seq<char>, password: Seq<char>, security: Seq<char>) -> Seq<
    char,
> {
    let up = uppercase(security);
    if seq_contains(up, "WPA"@) {
        "WIFI:T:"@ + "WPA"@ + ";S:"@ + wifi_escape(ssid) + ";P:"@ + wifi_escape(password) + ";;"@
    } else if seq_contains(up, "WEP"@) {
        "WIFI:T:"@ + "WEP"@ + ";S:"@ + wifi_escape(ssid) + ";P:"@ + wifi_escape(password) + ";;"@
    } else {
        "WIFI:T:nopass;S:"@ + wifi_escape(ssid) + ";;"@
    }
}

/// Every form of the payload carries the escaped SSID in its `S:` field: the
/// payload is `WIFI:T:`, the type (`WPA` when the label names WPA in any
/// case, otherwise `WEP` when it names WEP, otherwise `nopass`), then `;S:`,
/// the escaped SSID and `;`, then the rest: the `P:` field with the escaped
/// password for WPA and WEP, nothing more for an open network. Reading the
/// fields back gives the SSID and the password.
pub proof fn law_payload_fields(ssid: Seq<char>, password: Seq<char>, security: Seq<char>) -> (parts: (
    Seq<char>,
    Seq<char>,
))
    ensures
        wifi_payload_spec(ssid, password, security) == "WIFI:T:"@ + parts.0 + ";S:"@ + wifi_escape(
            ssid,
        ) + ";"@ + parts.1,
        seq_contains(uppercase(security), "WPA"@) ==> parts.0 == "WPA"@,
        !seq_contains(uppercase(security), "WPA"@) && seq_contains(uppercase(security), "WEP"@)
            ==> parts.0 == "WEP"@,
        !seq_contains(uppercase(security), "WPA"@) && !seq_contains(uppercase(security), "WEP"@)
            ==> parts.0 == "nopass"@ && parts.1 == ";"@,
        parts.0 == "WPA"@ || parts.0 == "WEP"@ ==> parts.1 == "P:"@ + wifi_escape(password)
            + ";;"@,
        wifi_unescape(wifi_escape(ssid)) == ssid,
        wifi_unescape(wifi_escape(password)) == password,
{
    reveal_strlit("WIFI:T:");
    reveal_strlit("WIFI:T:nopass;S:");
    reveal_strlit("nopass");
    reveal_strlit(";S:");
    reveal_strlit(";P:");
    reveal_strlit("P:");
    reveal_strlit(";");
    reveal_strlit(";;");
    reveal_strlit("WPA");
    reveal_strlit("WEP");
    law_wifi_escape_round_trip(ssid);
    law_wifi_escape_round_trip(password);
    let up = uppercase(security);
    let es = wifi_escape(ssid);
    let ep = wifi_escape(password);
    if seq_contains(up, "WPA"@) || seq_contains(up, "WEP"@) {
        let t = if seq_contains(up, "WPA"@) {
            "WPA"@
        } else {
            "WEP"@
        };
        let rest = "P:"@ + ep + ";;"@;
        assert("WIFI:T:"@ + t + ";S:"@ + es + ";P:"@ + ep + ";;"@ =~= "WIFI:T:"@ + t + ";S:"@ + es
            + ";"@ + rest);
        (t, rest)
    } else {
        assert("WIFI:T:nopass;S:"@ + es + ";;"@ =~= "WIFI:T:"@ + "nopass"@ + ";S:"@ + es + ";"@
            + ";"@);
        ("nopass"@, ";"@)
    }
}

/// Builds the `WIFI:` payload (see `wifi_payload_spec`).
pub fn wifi_payload(ssid: &str, password: &str, security: &str) -> (r: String)
    ensures
        r@ == wifi_payload_spec(ssid@, password@, security@),
{
    let up = to_uppercase(security);
    let escaped_ssid = escape_wifi_string(ssid);
    let escaped_pwd = escape_wifi_string(password);
    let auth: &str = if contains(up.as_str(), "WPA") {
        "WPA"
    } else if contains(up.as_str(), "WEP") {
        "WEP"
    } else {
        "nopass"
    };
    let secured = contains(up.as_str(), "WPA") || contains(up.as_str(), "WEP");
    if !secured {
        let mut r = String::from_str("WIFI:T:nopass;S:");
        r.append(escaped_ssid.as_str());
        r.append(";;");
        r
    } else {
        let mut r = String::from_str("WIFI:T:");
        r.append(auth);
        r.append(";S:");
        r.append(escaped_ssid.as_str());
        r.append(";P:");
        r.append(escaped_pwd.as_str());
        r.append(";;");
        r
    }
}

// ---------------------------------------------------------------------------
// QR symbol
// ---------------------------------------------------------------------------

/// What `QrCode::with_error_correction_level(data, EcLevel::M)` produces for
/// `data`: the symbol's width and its modules row by row (`true` for dark),
/// or `None` when it refuses the data.
pub uninterp spec fn qr_symbol_level_m(data: Seq<u8>) -> Option<(usize, Seq<bool>)>;

/// What `QrCode::new(data)` produces for `data`, in the same form.
pub uninterp spec fn qr_symbol_default(data: Seq<u8>) -> Option<(usize, Seq<bool>)>;

/// Trusted: calls `qrcode::QrCode::with_error_correction_level` at level M,
/// then `width` and `into_colors`; its result is named `qr_symbol_level_m` of
/// the data. As the crate's source builds it, the symbol holds `width * width`
/// modules.
#[verifier::external_body]
fn encode_qr_level_m(data: &[u8]) -> (r: Option<(usize, Vec<bool>)>)
    ensures
        match qr_symbol_level_m(data@) {
            Some(q) => r matches Some(x) && x.0 == q.0 && x.1@ == q.1,
            None => r is None,
        },
        r matches Some(x) ==> x.1@.len() == x.0 * x.0,
{
    match qrcode::QrCode::with_error_correction_level(data, qrcode::EcLevel::M) {
        Ok(code) => {
            let width = code.width();
            let dark = |c| match c { qrcode::Color::Dark => true, qrcode::Color::Light => false };
            Some((width, code.into_colors().into_iter().map(dark).collect()))
        },
        Err(_) => None,
    }
}

/// Trusted: calls `qrcode::QrCode::new`, then `width` and `into_colors`; its
/// result is named `qr_symbol_default` of the data. As the crate's source
/// builds it, the symbol holds `width * width` modules.
#[verifier::external_body]
fn encode_qr_default(data: &[u8]) -> (r: Option<(usize, Vec<bool>)>)
    ensures
        match qr_symbol_default(data@) {
            Some(q) => r matches Some(x) && x.0 == q.0 && x.1@ == q.1,
            None => r is None,
        },
        r matches Some(x) ==> x.1@.len() == x.0 * x.0,
{
    match qrcode::QrCode::new(data) {
        Ok(code) => {
            let width = code.width();
            let dark = |c| match c { qrcode::Color::Dark => true, qrcode::Color::Light => false };
            Some((width, code.into_colors().into_iter().map(dark).collect()))
        },
        Err(_) => None,
    }
}

// ---------------------------------------------------------------------------
// Drawing
// ---------------------------------------------------------------------------

/// One terminal cell showing two stacked modules with an upper half block:
/// the upper module as foreground, the lower one as background.
#[derive(Debug, Clone, Copy, PartialEq, Eq, Structural)]
pub struct HalfBlock {
    pub top_dark: bool,
    pub bottom_dark: bool,
}

/// Width of the light margin around the symbol, in modules.
pub const QUIET_ZONE: usize = 2;

/// A fully light cell.
pub open spec fn light_cell() -> HalfBlock {
    HalfBlock { top_dark: false, bottom_dark: false }
}

/// Cell `x` of line `line` of the drawing of a `w`-wide symbol `m`: a light
/// first and last line, and between them one line per two module rows, with
/// a light quiet zone left and right; a missing lower row is light.
pub open spec fn qr_cell(w: int, m: Seq<bool>, line: int, x: int) -> HalfBlock {
    let y = 2 * (line - 1);
    if line == 0 || line > (w + 1) / 2 || x < QUIET_ZONE || x >= w + QUIET_ZONE {
        light_cell()
    } else {
        HalfBlock {
            top_dark: m[y * w + (x - QUIET_ZONE)],
            bottom_dark: if y + 1 < w {
                m[(y + 1) * w + (x - QUIET_ZONE)]
            } else {
                false
            },
        }
    }
}

/// The lines of the drawing.
pub open spec fn qr_image(w: int, m: Seq<bool>) -> Seq<Seq<HalfBlock>> {
    Seq::new(
        ((w + 1) / 2 + 2) as nat,
        |line: int| Seq::new((w + 2 * QUIET_ZONE) as nat, |x: int| qr_cell(w, m, line, x)),
    )
}

/// The cells of each line.
pub open spec fn lines_view(v: Seq<Vec<HalfBlock>>) -> Seq<Seq<HalfBlock>> {
    v.map_values(|r: Vec<HalfBlock>| r@)
}

fn light_line(n: usize) -> (r: Vec<HalfBlock>)
    ensures
        r@ == Seq::new(n as nat, |x: int| light_cell()),
{
    let mut r: Vec<HalfBlock> = Vec::new();
    let mut i: usize = 0;
    while i < n
        invariant
            i <= n,
            r@ == Seq::new(i as nat, |x: int| light_cell()),
        decreases n - i,
    {
        r.push(HalfBlock { top_dark: false, bottom_dark: false });
        i = i + 1;
        assert(r@ =~= Seq::new(i as nat, |x: int| light_cell()));
    }
    r
}

proof fn lemma_index_bound(y: int, w: int, x: int)
    requires
        0 <= y < w,
        0 <= x < w,
    ensures
        0 <= y * w + x < w * w,
        y * w + w <= w * w,
        0 <= y * w,
{
    assert(0 <= y * w + x < w * w) by (nonlinear_arith)
        requires
            0 <= y < w,
            0 <= x < w,
    ;
    assert(y * w + w <= w * w) by (nonlinear_arith)
        requires
            0 <= y < w,
    ;
}

fn qr_body_line(width: usize, modules: &Vec<bool>, y: usize) -> (r: Vec<HalfBlock>)
    requires
        modules@.len() == width * width,
        y < width,
        y % 2 == 0,
        width + 2 * QUIET_ZONE <= usize::MAX,
    ensures
        r@ == Seq::new(
            (width + 2 * QUIET_ZONE) as nat,
            |x: int| qr_cell(width as int, modules@, y / 2 + 1, x),
        ),
{
    let ghost w = width as int;
    let ghost line = y / 2 + 1;
    let n = modules.len();
    proof {
        lemma_index_bound(y as int, w, 0);
    }
    let top = y * width;
    let has_bottom = y + 1 < width;
    let bottom = if has_bottom {
        proof {
            lemma_index_bound(y + 1, w, 0);
        }
        (y + 1) * width
    } else {
        0
    };
    let total = width + 2 * QUIET_ZONE;
    let mut r: Vec<HalfBlock> = Vec::new();
    let mut x: usize = 0;
    while x < total
        invariant
            modules@.len() == w * w,
            n == modules@.len(),
            w == width,
            total == w + 2 * QUIET_ZONE,
            y < width,
            y % 2 == 0,
            line == y / 2 + 1,
            top == y * w,
            has_bottom == (y + 1 < w),
            has_bottom ==> bottom == (y + 1) * w,
            x <= total,
            r@ == Seq::new(x as nat, |i: int| qr_cell(w, modules@, line, i)),
        decreases total - x,
    {
        let cell = if x < QUIET_ZONE || x >= width + QUIET_ZONE {
            HalfBlock { top_dark: false, bottom_dark: false }
        } else {
            let col = x - QUIET_ZONE;
            proof {
                lemma_index_bound(y as int, w, col as int);
                if has_bottom {
                    lemma_index_bound(y + 1, w, col as int);
                }
            }
            HalfBlock {
                top_dark: modules[top + col],
                bottom_dark: if has_bottom {
                    modules[bottom + col]
                } else {
                    false
                },
            }
        };
        assert(2 * (line - 1) == y);
        assert(line <= (w + 1) / 2);
        assert(cell == qr_cell(w, modules@, line, x as int));
        r.push(cell);
        x = x + 1;
        assert(r@ =~= Seq::new(x as nat, |i: int| qr_cell(w, modules@, line, i)));
    }
    r
}

/// Draws a `width`-wide symbol as half-block cells (see `qr_image`).
pub fn qr_lines(width: usize, modules: &Vec<bool>) -> (r: Vec<Vec<HalfBlock>>)
    requires
        modules@.len() == width * width,
    ensures
        lines_view(r@) == qr_image(width as int, modules@),
{
    let ghost w = width as int;
    let n = modules.len();
    assert(width <= usize::MAX - 2 * QUIET_ZONE) by (nonlinear_arith)
        requires
            width * width <= usize::MAX,
            usize::MAX >= 0xffff_ffff,
    ;
    let total = width + 2 * QUIET_ZONE;
    let mut lines: Vec<Vec<HalfBlock>> = Vec::new();
    let first = light_line(total);
    proof {
        assert(first@ =~= Seq::new(total as nat, |x: int| qr_cell(w, modules@, 0, x)));
    }
    lines.push(first);
    let mut y: usize = 0;
    while y < width
        invariant
            modules@.len() == w * w,
            w == width,
            total == w + 2 * QUIET_ZONE,
            y % 2 == 0,
            y <= width + 1,
            lines@.len() == y / 2 + 1,
            forall|l: int|
                0 <= l < lines@.len() ==> (#[trigger] lines@[l])@ == qr_image(w, modules@)[l],
        decreases width + 1 - y,
    {
        let line = qr_body_line(width, modules, y);
        proof {
            assert(line@ =~= qr_image(w, modules@)[y / 2 + 1]);
        }
        lines.push(line);
        y = y + 2;
    }
    assert(lines@.len() == (w + 1) / 2 + 1);
    let last = light_line(total);
    proof {
        assert(last@ =~= qr_image(w, modules@)[(w + 1) / 2 + 1]);
    }
    lines.push(last);
    assert(lines_view(lines@) =~= qr_image(w, modules@));
    lines
}

/// The drawing shows every module of the symbol, exactly once in place:
/// module `(x, y)` is the upper half of cell `x + 2` on line `y / 2 + 1` when
/// `y` is even, and the lower half when `y` is odd.
pub proof fn law_qr_image_shows_every_module(w: int, m: Seq<bool>, x: int, y: int)
    requires
        0 <= x < w,
        0 <= y < w,
        m.len() == w * w,
    ensures
        ({
            let cell = qr_image(w, m)[y / 2 + 1][x + QUIET_ZONE];
            if y % 2 == 0 {
                cell.top_dark == m[y * w + x]
            } else {
                cell.bottom_dark == m[y * w + x]
            }
        }),
{
    let line = y / 2 + 1;
    assert(line < (w + 1) / 2 + 2);
    assert(x + QUIET_ZONE < w + 2 * QUIET_ZONE);
    if y % 2 == 0 {
        assert(2 * (line - 1) == y);
    } else {
        assert(2 * (line - 1) + 1 == y);
    }
}

/// `r` is the QR drawing of the Wi-Fi payload for `ssid`, `password` and
/// `security`: the symbol at error correction level M (retried with the
/// crate's default constructor when refused), or the message
/// `Failed to generate QR code.` when no symbol can be made.
pub open spec fn is_wifi_qr_drawing(
    ssid: Seq<char>,
    password: Seq<char>,
    security: Seq<char>,
    r: Result<Vec<Vec<HalfBlock>>, String>,
) -> bool {
    let data = vstd::utf8::encode_utf8(wifi_payload_spec(ssid, password, security));
    match qr_symbol_level_m(data) {
        Some(q) => r is Ok && lines_view(r->Ok_0@) == qr_image(q.0 as int, q.1),
        None => match qr_symbol_default(data) {
            Some(q) => r is Ok && lines_view(r->Ok_0@) == qr_image(q.0 as int, q.1),
            None => r is Err && r->Err_0@ == "Failed to generate QR code."@,
        },
    }
}

/// The QR drawing of the Wi-Fi payload (see `is_wifi_qr_drawing`).
pub fn generate_wifi_qr_lines(ssid: &str, password: &str, security: &str) -> (r: Result<
    Vec<Vec<HalfBlock>>,
    String,
>)
    ensures
        is_wifi_qr_drawing(ssid@, password@, security@, r),
{
    let payload = wifi_payload(ssid, password, security);
    let bytes = payload.as_str().as_bytes();
    match encode_qr_level_m(bytes) {
        Some((w, m)) => Ok(qr_lines(w, &m)),
        None => match encode_qr_default(bytes) {
            Some((w, m)) => Ok(qr_lines(w, &m)),
            None => Err(String::from_str("Failed to generate QR code.")),
        },
    }
}

} // verus!
