//! Decisions behind the NetworkManager conversation: how access points are
//! classified and merged into the network list, how saved profiles are looked
//! up, what settings a new Wi-Fi profile carries, and which step a connection
//! attempt takes next. The D-Bus calls themselves stay outside the library.

use vstd::prelude::*;
use crate::text::{contains, seq_contains, str_eq, push_hex_fixed, hex_fixed, push_char};

verus! {

/// `NM_802_11_AP_SEC_KEY_MGMT_PSK`.
pub const AP_SEC_KEY_MGMT_PSK: u32 = 0x100;

/// `NM_802_11_AP_SEC_KEY_MGMT_802_1X`.
pub const AP_SEC_KEY_MGMT_802_1X: u32 = 0x200;

/// `NM_802_11_AP_SEC_KEY_MGMT_SAE`.
pub const AP_SEC_KEY_MGMT_SAE: u32 = 0x400;

/// `NM_DEVICE_TYPE_ETHERNET`.
pub const DEVICE_TYPE_ETHERNET: u32 = 1;

/// `NM_DEVICE_TYPE_WIFI`.
pub const DEVICE_TYPE_WIFI: u32 = 2;

/// `NM_DEVICE_STATE_ACTIVATED`.
pub const DEVICE_STATE_ACTIVATED: u32 = 100;

/// The security label of an access point, from its WPA and RSN flags.
pub open spec fn security_label(wpa_flags: u32, rsn_flags: u32) -> Seq<char> {
    if (rsn_flags & AP_SEC_KEY_MGMT_802_1X) != 0 || (wpa_flags & AP_SEC_KEY_MGMT_802_1X) != 0 {
        "WPA-Enterprise"@
    } else if (rsn_flags & AP_SEC_KEY_MGMT_PSK) != 0 || (wpa_flags & AP_SEC_KEY_MGMT_PSK) != 0 {
        "WPA2-PSK"@
    } else if (rsn_flags & AP_SEC_KEY_MGMT_SAE) != 0 {
        "WPA3-SAE"@
    } else if rsn_flags != 0 || wpa_flags != 0 {
        "WPA2-PSK"@
    } else {
        "Open"@
    }
}

/// Classifies an access point by its WPA and RSN flags.
pub fn parse_security(wpa_flags: u32, rsn_flags: u32) -> (r: String)
    ensures
        r@ == security_label(wpa_flags, rsn_flags),
{
    if (rsn_flags & AP_SEC_KEY_MGMT_802_1X) != 0 || (wpa_flags & AP_SEC_KEY_MGMT_802_1X) != 0 {
        return String::from_str("WPA-Enterprise");
    }
    if (rsn_flags & AP_SEC_KEY_MGMT_PSK) != 0 || (wpa_flags & AP_SEC_KEY_MGMT_PSK) != 0 {
        return String::from_str("WPA2-PSK");
    }
    if (rsn_flags & AP_SEC_KEY_MGMT_SAE) != 0 {
        return String::from_str("WPA3-SAE");
    }
    if rsn_flags != 0 || wpa_flags != 0 {
        return String::from_str("WPA2-PSK");
    }
    String::from_str("Open")
}

/// The label follows the key-management bits of the two flag words (802.1X
/// `0x200`, PSK `0x100`, and SAE `0x400` in the RSN word): 802.1X in either
/// word means WPA-Enterprise; otherwise PSK in either word means WPA2-PSK;
/// otherwise SAE in the RSN word means WPA3-SAE, whatever cipher bits are set
/// beside it; any other flags mean WPA2-PSK, and no flags an open network.
pub proof fn law_security_from_key_management(wpa_flags: u32, rsn_flags: u32)
    ensures
        ((wpa_flags & 0x200u32) != 0 || (rsn_flags & 0x200u32) != 0) ==> security_label(
            wpa_flags,
            rsn_flags,
        ) == "WPA-Enterprise"@,
        (wpa_flags & 0x200u32) == 0 && (rsn_flags & 0x200u32) == 0 && ((wpa_flags & 0x100u32) != 0
            || (rsn_flags & 0x100u32) != 0) ==> security_label(wpa_flags, rsn_flags)
            == "WPA2-PSK"@,
        (wpa_flags & 0x300u32) == 0 && (rsn_flags & 0x300u32) == 0 && (rsn_flags & 0x400u32) != 0
            ==> security_label(wpa_flags, rsn_flags) == "WPA3-SAE"@,
        (wpa_flags & 0x300u32) == 0 && (rsn_flags & 0x700u32) == 0 && (wpa_flags != 0 || rsn_flags
            != 0) ==> security_label(wpa_flags, rsn_flags) == "WPA2-PSK"@,
        wpa_flags == 0 && rsn_flags == 0 ==> security_label(wpa_flags, rsn_flags) == "Open"@,
{
    assert((wpa_flags & 0x300u32) == 0 ==> (wpa_flags & 0x200u32) == 0 && (wpa_flags & 0x100u32)
        == 0) by (bit_vector);
    assert((rsn_flags & 0x300u32) == 0 ==> (rsn_flags & 0x200u32) == 0 && (rsn_flags & 0x100u32)
        == 0) by (bit_vector);
    assert((rsn_flags & 0x700u32) == 0 ==> (rsn_flags & 0x400u32) == 0 && (rsn_flags & 0x300u32)
        == 0) by (bit_vector);
    assert(wpa_flags == 0 ==> (wpa_flags & 0x200u32) == 0 && (wpa_flags & 0x100u32) == 0)
        by (bit_vector);
    assert(rsn_flags == 0 ==> (rsn_flags & 0x700u32) == 0) by (bit_vector);
}

/// Cipher and other bits beside the key-management bits do not change the
/// label: adding bits outside `0x700` to either flag word of a secured access
/// point (one with a key-management bit) gives the same label.
pub proof fn law_security_ignores_cipher_bits(
    wpa_flags: u32,
    rsn_flags: u32,
    extra_wpa: u32,
    extra_rsn: u32,
)
    requires
        (extra_wpa & 0x700u32) == 0,
        (extra_rsn & 0x700u32) == 0,
        (wpa_flags & 0x700u32) != 0 || (rsn_flags & 0x700u32) != 0,
    ensures
        security_label(wpa_flags | extra_wpa, rsn_flags | extra_rsn) == security_label(
            wpa_flags,
            rsn_flags,
        ),
{
    let w2 = wpa_flags | extra_wpa;
    let r2 = rsn_flags | extra_rsn;
    assert((w2 & 0x200u32) == (wpa_flags & 0x200u32) && (w2 & 0x100u32) == (wpa_flags & 0x100u32)
        && (w2 & 0x400u32) == (wpa_flags & 0x400u32)) by (bit_vector)
        requires
            w2 == wpa_flags | extra_wpa,
            (extra_wpa & 0x700u32) == 0,
    ;
    assert((r2 & 0x200u32) == (rsn_flags & 0x200u32) && (r2 & 0x100u32) == (rsn_flags & 0x100u32)
        && (r2 & 0x400u32) == (rsn_flags & 0x400u32)) by (bit_vector)
        requires
            r2 == rsn_flags | extra_rsn,
            (extra_rsn & 0x700u32) == 0,
    ;
    assert((wpa_flags & 0x700u32) != 0 ==> (wpa_flags & 0x200u32) != 0 || (wpa_flags & 0x100u32)
        != 0 || (wpa_flags & 0x400u32) != 0) by (bit_vector);
    assert((rsn_flags & 0x700u32) != 0 ==> (rsn_flags & 0x200u32) != 0 || (rsn_flags & 0x100u32)
        != 0 || (rsn_flags & 0x400u32) != 0) by (bit_vector);
    assert((w2 & 0x400u32) != 0 ==> w2 != 0) by (bit_vector);
    assert((wpa_flags & 0x400u32) != 0 ==> wpa_flags != 0) by (bit_vector);
}

/// The NetworkManager key management for a security label.
pub open spec fn key_mgmt_for(security: Seq<char>) -> Seq<char> {
    if seq_contains(security, "SAE"@) {
        "sae"@
    } else if seq_contains(security, "WEP"@) {
        "none"@
    } else {
        "wpa-psk"@
    }
}

/// The key management to configure for a security label.
pub fn infer_key_mgmt(security: &str) -> (r: String)
    ensures
        r@ == key_mgmt_for(security@),
{
    if contains(security, "SAE") {
        String::from_str("sae")
    } else if contains(security, "WEP") {
        String::from_str("none")
    } else {
        String::from_str("wpa-psk")
    }
}

/// Why a password is refused for a network of the given security, from the
/// password's length in UTF-8 bytes; `None` when it is accepted.
pub open spec fn password_error(security: Seq<char>, byte_len: nat) -> Option<Seq<char>> {
    if seq_contains(security, "Open"@) {
        None
    } else if seq_contains(security, "Enterprise"@) {
        Some("WPA-Enterprise is not supported by this TUI yet"@)
    } else if seq_contains(security, "WEP"@) || seq_contains(security, "SAE"@) {
        None
    } else if byte_len == 64 || (8 <= byte_len && byte_len <= 63) {
        None
    } else {
        Some("WPA/WPA2 password must be 8-63 characters, or exactly 64 hex characters"@)
    }
}

/// Checks a password against the rules of the network's security.
pub fn validate_wifi_password(security: &str, password: &str) -> (r: Result<(), String>)
    ensures
        match password_error(security@, vstd::utf8::encode_utf8(password@).len()) {
            None => r is Ok,
            Some(m) => r is Err && r->Err_0@ == m,
        },
{
    if contains(security, "Open") {
        return Ok(());
    }
    if contains(security, "Enterprise") {
        return Err(String::from_str("WPA-Enterprise is not supported by this TUI yet"));
    }
    if contains(security, "WEP") {
        return Ok(());
    }
    if contains(security, "SAE") {
        return Ok(());
    }
    let n = password.as_bytes().len();
    if n == 64 {
        return Ok(());
    }
    if n >= 8 && n <= 63 {
        return Ok(());
    }
    Err(
        String::from_str(
            "WPA/WPA2 password must be 8-63 characters, or exactly 64 hex characters",
        ),
    )
}

/// The text of a version-4 style UUID made from a clock reading in
/// nanoseconds and a process id.
pub open spec fn uuid_text(now: u128, pid: u32) -> Seq<char> {
    hex_fixed((now & 0xffff_ffff) as nat, 8) + seq!['-'] + hex_fixed(
        ((now >> 32u128) & 0xffff) as nat,
        4,
    ) + seq!['-'] + hex_fixed((((now >> 48u128) & 0x0fff) | 0x4000) as nat, 4) + seq!['-']
        + hex_fixed(((((pid as u128) ^ (now >> 64u128)) & 0xffff) | 0x8000) as nat, 4) + seq![
        '-',
    ] + hex_fixed(((now >> 80u128) & 0xffff_ffff_ffff) as nat, 12)
}

/// A UUID for a new connection profile, from a clock reading in nanoseconds
/// and the process id.
pub fn uuid_from_clock(now: u128, pid: u32) -> (r: String)
    ensures
        r@ == uuid_text(now, pid),
{
    let a: u128 = now & 0xffff_ffff;
    let b: u128 = (now >> 32u128) & 0xffff;
    let c: u128 = ((now >> 48u128) & 0x0fff) | 0x4000;
    let d: u128 = (((pid as u128) ^ (now >> 64u128)) & 0xffff) | 0x8000;
    let e: u128 = (now >> 80u128) & 0xffff_ffff_ffff;
    assert(a <= 0xffff_ffff) by (bit_vector)
        requires
            a == now & 0xffff_ffff,
    ;
    assert(b <= 0xffff) by (bit_vector)
        requires
            b == (now >> 32u128) & 0xffff,
    ;
    assert(c <= 0xffff) by (bit_vector)
        requires
            c == ((now >> 48u128) & 0x0fff) | 0x4000,
    ;
    assert(d <= 0xffff) by (bit_vector)
        requires
            d == (((pid as u128) ^ (now >> 64u128)) & 0xffff) | 0x8000,
    ;
    assert(e <= 0xffff_ffff_ffff) by (bit_vector)
        requires
            e == (now >> 80u128) & 0xffff_ffff_ffff,
    ;
    let mut s = String::new();
    push_hex_fixed(&mut s, a as u64, 8);
    push_char(&mut s, '-');
    push_hex_fixed(&mut s, b as u64, 4);
    push_char(&mut s, '-');
    push_hex_fixed(&mut s, c as u64, 4);
    push_char(&mut s, '-');
    push_hex_fixed(&mut s, d as u64, 4);
    push_char(&mut s, '-');
    push_hex_fixed(&mut s, e as u64, 12);
    assert(s@ =~= uuid_text(now, pid));
    s
}

proof fn lemma_hex_fixed_len(n: nat, w: nat)
    ensures
        hex_fixed(n, w).len() == w,
    decreases w,
{
    if w > 0 {
        lemma_hex_fixed_len(n / 16, (w - 1) as nat);
    }
}

proof fn lemma_hex4_first(n: nat)
    ensures
        hex_fixed(n, 4)[0] == crate::text::digit_char((n / 4096) % 16),
{
    lemma_hex_fixed_len(n / 16, 3);
    lemma_hex_fixed_len(n / 16 / 16, 2);
    lemma_hex_fixed_len(n / 16 / 16 / 16, 1);
    vstd::arithmetic::div_mod::lemma_div_denominator(n as int, 16, 16);
    vstd::arithmetic::div_mod::lemma_div_denominator(n as int, 256, 16);
    assert(hex_fixed(n, 4)[0] == hex_fixed(n / 16, 3)[0]);
    assert(hex_fixed(n / 16, 3)[0] == hex_fixed(n / 16 / 16, 2)[0]);
    assert(hex_fixed(n / 16 / 16, 2)[0] == hex_fixed(n / 16 / 16 / 16, 1)[0]);
}

/// Every profile UUID has the textual shape of a version-4 UUID: 36
/// characters, hyphens after the 8th, 12th, 16th and 20th digit, the version
/// digit `4`, and a variant digit with its high bit set (`8` to `f`).
pub proof fn law_uuid_shape(now: u128, pid: u32)
    ensures
        ({
            let t = uuid_text(now, pid);
            &&& t.len() == 36
            &&& t[8] == '-' && t[13] == '-' && t[18] == '-' && t[23] == '-'
            &&& t[14] == '4'
            &&& exists|k: nat| 8 <= k <= 15 && t[19] == #[trigger] crate::text::digit_char(k)
        }),
{
    let a = (now & 0xffff_ffff) as nat;
    let b = ((now >> 32u128) & 0xffff) as nat;
    let cv: u128 = ((now >> 48u128) & 0x0fff) | 0x4000;
    let dv: u128 = (((pid as u128) ^ (now >> 64u128)) & 0xffff) | 0x8000;
    let e = ((now >> 80u128) & 0xffff_ffff_ffff) as nat;
    lemma_hex_fixed_len(a, 8);
    lemma_hex_fixed_len(b, 4);
    lemma_hex_fixed_len(cv as nat, 4);
    lemma_hex_fixed_len(dv as nat, 4);
    lemma_hex_fixed_len(e, 12);
    lemma_hex4_first(cv as nat);
    lemma_hex4_first(dv as nat);
    assert(cv / 4096 % 16 == 4) by (bit_vector)
        requires
            cv == ((now >> 48u128) & 0x0fff) | 0x4000,
    ;
    assert(8 <= dv / 4096 % 16 <= 15) by (bit_vector)
        requires
            dv == (((pid as u128) ^ (now >> 64u128)) & 0xffff) | 0x8000,
    ;
    let t = uuid_text(now, pid);
    let k = (dv as nat / 4096) % 16;
    assert(t[19] == crate::text::digit_char(k));
}

// ---------------------------------------------------------------------------
// Connection settings
// ---------------------------------------------------------------------------

/// A value in a NetworkManager settings dictionary.
#[derive(Debug)]
pub enum SettingValue {
    Str(String),
    U32(u32),
    Bool(bool),
    Bytes(Vec<u8>),
}

/// The mathematical value of a `SettingValue`.
pub enum SettingValueView {
    Str(Seq<char>),
    U32(u32),
    Bool(bool),
    Bytes(Seq<u8>),
}

impl View for SettingValue {
    type V = SettingValueView;

    open spec fn view(&self) -> SettingValueView {
        match self {
            SettingValue::Str(s) => SettingValueView::Str(s@),
            SettingValue::U32(u) => SettingValueView::U32(*u),
            SettingValue::Bool(b) => SettingValueView::Bool(*b),
            SettingValue::Bytes(v) => SettingValueView::Bytes(v@),
        }
    }
}

/// One key of a settings section.
#[derive(Debug)]
pub struct SettingField {
    pub key: String,
    pub value: SettingValue,
}

/// A named settings section (such as `connection` or `802-11-wireless`) with
/// its fields in order.
#[derive(Debug)]
pub struct SettingsSection {
    pub name: String,
    pub fields: Vec<SettingField>,
}

pub open spec fn field_view(f: SettingField) -> (Seq<char>, SettingValueView) {
    (f.key@, f.value@)
}

pub open spec fn fields_view(v: Seq<SettingField>) -> Seq<(Seq<char>, SettingValueView)> {
    v.map_values(|f: SettingField| field_view(f))
}

pub open spec fn section_view(s: SettingsSection) -> (
    Seq<char>,
    Seq<(Seq<char>, SettingValueView)>,
) {
    (s.name@, fields_view(s.fields@))
}

pub open spec fn sections_view(v: Seq<SettingsSection>) -> Seq<
    (Seq<char>, Seq<(Seq<char>, SettingValueView)>),
> {
    v.map_values(|s: SettingsSection| section_view(s))
}

fn str_field(key: &str, value: String) -> (f: SettingField)
    ensures
        field_view(f) == (key@, SettingValueView::Str(value@)),
{
    SettingField { key: String::from_str(key), value: SettingValue::Str(value) }
}

/// The secret fields written into a Wi-Fi security section.
pub open spec fn secret_fields_spec(key_mgmt: Seq<char>, password: Seq<char>) -> Seq<
    (Seq<char>, SettingValueView),
> {
    if key_mgmt == "none"@ {
        seq![
            ("key-mgmt"@, SettingValueView::Str(key_mgmt)),
            ("wep-key0"@, SettingValueView::Str(password)),
            ("wep-key-type"@, SettingValueView::U32(1)),
        ]
    } else {
        seq![("key-mgmt"@, SettingValueView::Str(key_mgmt)), ("psk"@, SettingValueView::Str(password))]
    }
}

fn secret_fields(key_mgmt: String, password: &str) -> (v: Vec<SettingField>)
    ensures
        fields_view(v@) == secret_fields_spec(key_mgmt@, password@),
{
    let is_wep = str_eq(key_mgmt.as_str(), "none");
    let mut v: Vec<SettingField> = Vec::new();
    v.push(str_field("key-mgmt", key_mgmt));
    if is_wep {
        v.push(str_field("wep-key0", String::from_str(password)));
        v.push(
            SettingField { key: String::from_str("wep-key-type"), value: SettingValue::U32(1) },
        );
    } else {
        v.push(str_field("psk", String::from_str(password)));
    }
    assert(fields_view(v@) =~= secret_fields_spec(key_mgmt@, password@));
    v
}

/// The fields that store a new password into a saved profile's Wi-Fi security
/// section: its key management (kept when the profile has one, otherwise
/// inferred from the security label) and the secret.
pub open spec fn password_update_spec(
    existing_key_mgmt: Option<Seq<char>>,
    security: Seq<char>,
    password: Seq<char>,
) -> Seq<(Seq<char>, SettingValueView)> {
    let km = match existing_key_mgmt {
        Some(k) => k,
        None => key_mgmt_for(security),
    };
    secret_fields_spec(km, password)
}

/// The fields to write when a saved profile gets a new password.
pub fn password_update_fields(
    existing_key_mgmt: Option<String>,
    security: &str,
    password: &str,
) -> (v: Vec<SettingField>)
    ensures
        fields_view(v@) == password_update_spec(
            match existing_key_mgmt {
                Some(k) => Some(k@),
                None => None,
            },
            security@,
            password@,
        ),
{
    let km = match existing_key_mgmt {
        Some(k) => k,
        None => infer_key_mgmt(security),
    };
    secret_fields(km, password)
}

/// The settings of a new Wi-Fi profile, or why none can be made.
pub open spec fn wifi_settings_spec(
    ssid: Seq<char>,
    security: Seq<char>,
    password: Option<Seq<char>>,
    uuid: Seq<char>,
) -> Result<Seq<(Seq<char>, Seq<(Seq<char>, SettingValueView)>)>, Seq<char>> {
    let open = security == "Open"@;
    if !open && (password is None || password->0.len() == 0) {
        Err("A password is required for this network"@)
    } else if password is Some && password_error(
        security,
        vstd::utf8::encode_utf8(password->0).len(),
    ) is Some {
        Err(password_error(security, vstd::utf8::encode_utf8(password->0).len())->0)
    } else {
        let connection = (
            "connection"@,
            seq![
                ("id"@, SettingValueView::Str(ssid)),
                ("uuid"@, SettingValueView::Str(uuid)),
                ("type"@, SettingValueView::Str("802-11-wireless"@)),
                ("autoconnect"@, SettingValueView::Bool(true)),
            ],
        );
        let wifi = (
            "802-11-wireless"@,
            seq![
                ("ssid"@, SettingValueView::Bytes(vstd::utf8::encode_utf8(ssid))),
                ("mode"@, SettingValueView::Str("infrastructure"@)),
            ],
        );
        if open {
            Ok(seq![connection, wifi])
        } else {
            let pw = match password {
                Some(p) => p,
                None => Seq::empty(),
            };
            Ok(
                seq![
                    connection,
                    wifi,
                    ("802-11-wireless-security"@, secret_fields_spec(key_mgmt_for(security), pw)),
                ],
            )
        }
    }
}

/// A new secured profile gets the key management its security label calls
/// for, the same that storing a password into a saved profile without one
/// writes: `sae` with the password as `psk` for an SAE network, `none` with
/// the password as a WEP key for WEP, and `wpa-psk` with the password as
/// `psk` otherwise.
pub proof fn law_new_profile_key_management(
    ssid: Seq<char>,
    security: Seq<char>,
    password: Seq<char>,
    uuid: Seq<char>,
)
    requires
        security != "Open"@,
        password.len() > 0,
        password_error(security, vstd::utf8::encode_utf8(password).len()) is None,
    ensures
        ({
            let r = wifi_settings_spec(ssid, security, Some(password), uuid);
            &&& r is Ok
            &&& r->Ok_0.len() == 3
            &&& r->Ok_0[2].0 == "802-11-wireless-security"@
            &&& r->Ok_0[2].1 == password_update_spec(None, security, password)
            &&& seq_contains(security, "SAE"@) ==> r->Ok_0[2].1 == seq![
                ("key-mgmt"@, SettingValueView::Str("sae"@)),
                ("psk"@, SettingValueView::Str(password)),
            ]
            &&& !seq_contains(security, "SAE"@) && seq_contains(security, "WEP"@) ==> r->Ok_0[2].1
                == seq![
                ("key-mgmt"@, SettingValueView::Str("none"@)),
                ("wep-key0"@, SettingValueView::Str(password)),
                ("wep-key-type"@, SettingValueView::U32(1)),
            ]
            &&& !seq_contains(security, "SAE"@) && !seq_contains(security, "WEP"@) ==> r->Ok_0[2].1
                == seq![
                ("key-mgmt"@, SettingValueView::Str("wpa-psk"@)),
                ("psk"@, SettingValueView::Str(password)),
            ]
        }),
{
    reveal_strlit("sae");
    reveal_strlit("none");
    reveal_strlit("wpa-psk");
    let r = wifi_settings_spec(ssid, security, Some(password), uuid);
    let km = key_mgmt_for(security);
    assert(r->Ok_0[2].1 == secret_fields_spec(km, password));
    assert(password_update_spec(None, security, password) == secret_fields_spec(km, password));
    if seq_contains(security, "SAE"@) {
        assert(km == "sae"@);
        assert(km != "none"@);
    } else if seq_contains(security, "WEP"@) {
        assert(km == "none"@);
    } else {
        assert(km == "wpa-psk"@);
        assert(km != "none"@);
    }
}

/// The settings for `AddAndActivateConnection` of a new Wi-Fi profile: the
/// connection (id, UUID, type, autoconnect), the SSID and mode, and, unless
/// the network is open, its key management and secret.
pub fn new_wifi_settings(ssid: &str, security: &str, password: Option<&str>, uuid: String) -> (r:
    Result<Vec<SettingsSection>, String>)
    ensures
        match wifi_settings_spec(
            ssid@,
            security@,
            match password {
                Some(p) => Some(p@),
                None => None,
            },
            uuid@,
        ) {
            Ok(v) => r is Ok && sections_view(r->Ok_0@) == v,
            Err(m) => r is Err && r->Err_0@ == m,
        },
{
    let open = str_eq(security, "Open");
    let missing = match password {
        Some(p) => p.unicode_len() == 0,
        None => true,
    };
    if !open && missing {
        return Err(String::from_str("A password is required for this network"));
    }
    if let Some(p) = password {
        if let Err(m) = validate_wifi_password(security, p) {
            return Err(m);
        }
    }
    let mut connection: Vec<SettingField> = Vec::new();
    connection.push(str_field("id", String::from_str(ssid)));
    connection.push(str_field("uuid", uuid));
    connection.push(str_field("type", String::from_str("802-11-wireless")));
    connection.push(
        SettingField { key: String::from_str("autoconnect"), value: SettingValue::Bool(true) },
    );
    let mut wifi: Vec<SettingField> = Vec::new();
    wifi.push(
        SettingField { key: String::from_str("ssid"), value: SettingValue::Bytes(ssid.as_bytes_vec()) },
    );
    wifi.push(str_field("mode", String::from_str("infrastructure")));
    let mut sections: Vec<SettingsSection> = Vec::new();
    sections.push(SettingsSection { name: String::from_str("connection"), fields: connection });
    sections.push(SettingsSection { name: String::from_str("802-11-wireless"), fields: wifi });
    if !open {
        let pw: &str = match password {
            Some(p) => p,
            None => "",
        };
        proof {
            if password is None {
                reveal_strlit("");
            }
        }
        let fields = secret_fields(infer_key_mgmt(security), pw);
        sections.push(
            SettingsSection { name: String::from_str("802-11-wireless-security"), fields },
        );
    }
    proof {
        let ghost expected = wifi_settings_spec(
            ssid@,
            security@,
            match password {
                Some(p) => Some(p@),
                None => None,
            },
            uuid@,
        );
        assert(fields_view(sections@[0].fields@) =~= expected->Ok_0[0].1);
        assert(fields_view(sections@[1].fields@) =~= expected->Ok_0[1].1);
        assert(sections_view(sections@) =~= expected->Ok_0);
    }
    Ok(sections)
}

// ---------------------------------------------------------------------------
// Connecting
// ---------------------------------------------------------------------------

/// What happened since the last step of a wait for a connection change.
pub enum WaitEvent {
    /// Time since the wait began, taken before each attempt.
    Clock { elapsed_ms: u64 },
    /// The network list was fetched (`None` when fetching failed).
    Fetched(Option<Vec<crate::app::NetworkEntry>>),
}

/// What a wait for a connection change does next.
#[derive(Debug)]
pub enum WaitAction {
    /// Fetch the network list.
    Fetch,
    /// Pause for `WAIT_POLL_MS`, then report the clock again.
    Sleep,
    /// The change has happened.
    Done,
    /// Give up with this message.
    TimedOut(String),
}

/// Pause between two looks at the network list while waiting.
pub const WAIT_POLL_MS: u64 = 500;

/// The message of a wait that timed out.
pub open spec fn wait_timeout_message(want_connected: bool) -> Seq<char> {
    if want_connected {
        "timed out waiting for NetworkManager to activate the connection"@
    } else {
        "timed out waiting for NetworkManager to disconnect"@
    }
}

/// Some network named `name` is listed as connected.
pub open spec fn named_connected(s: Seq<crate::app::NetworkEntry>, name: Seq<char>) -> bool {
    exists|i: int| 0 <= i < s.len() && (#[trigger] s[i]).name@ == name && s[i].is_connected
}

/// One step of waiting until the network `name` is connected
/// (`want_connected`) or no longer connected: while time is left, fetch the
/// list; stop once the list shows the wanted state, otherwise pause and look
/// again; give up once `timeout_ms` has passed.
pub fn wait_step(want_connected: bool, name: &str, timeout_ms: u64, event: &WaitEvent) -> (a:
    WaitAction)
    ensures
        match event {
            WaitEvent::Clock { elapsed_ms } => if *elapsed_ms < timeout_ms {
                a is Fetch
            } else {
                a matches WaitAction::TimedOut(m) && m@ == wait_timeout_message(want_connected)
            },
            WaitEvent::Fetched(None) => a is Sleep,
            WaitEvent::Fetched(Some(v)) => if named_connected(v@, name@) == want_connected {
                a is Done
            } else {
                a is Sleep
            },
        },
{
    match event {
        WaitEvent::Clock { elapsed_ms } => {
            if *elapsed_ms < timeout_ms {
                WaitAction::Fetch
            } else if want_connected {
                WaitAction::TimedOut(
                    String::from_str(
                        "timed out waiting for NetworkManager to activate the connection",
                    ),
                )
            } else {
                WaitAction::TimedOut(
                    String::from_str("timed out waiting for NetworkManager to disconnect"),
                )
            }
        },
        WaitEvent::Fetched(None) => WaitAction::Sleep,
        WaitEvent::Fetched(Some(v)) => {
            if crate::netlist::network_connected(v, name) == want_connected {
                WaitAction::Done
            } else {
                WaitAction::Sleep
            }
        },
    }
}

/// The next step of a connection attempt.
#[derive(Debug)]
pub enum ConnectStep {
    /// The attempt fails with this message.
    Fail(String),
    /// Look for a saved Wi-Fi profile with this network's SSID.
    FindSaved,
    /// Activate the saved profile at `path`, first storing the given password
    /// into it when `update_password` is set.
    Activate { path: String, update_password: bool },
    /// Create a new profile and activate it.
    Create,
}

/// The first step of connecting to `entry`, with an optional password.
pub fn connect_start(entry: &crate::app::NetworkEntry, password: Option<&str>) -> (r: ConnectStep)
    ensures
        match entry.kind {
            crate::app::NetworkKind::Wireless { security, .. } => if seq_contains(
                security@,
                "Enterprise"@,
            ) {
                r matches ConnectStep::Fail(m) && m@
                    == "WPA-Enterprise is not supported by this TUI yet"@
            } else if password is Some && password_error(
                security@,
                vstd::utf8::encode_utf8(password->0@).len(),
            ) is Some {
                r matches ConnectStep::Fail(m) && m@ == password_error(
                    security@,
                    vstd::utf8::encode_utf8(password->0@).len(),
                )->0
            } else {
                match entry.connection_path {
                    Some(p) => r matches ConnectStep::Activate { path, update_password } && path
                        == p && update_password == password is Some,
                    None => r is FindSaved,
                }
            },
            crate::app::NetworkKind::Wired { .. } => match entry.connection_path {
                Some(p) => r matches ConnectStep::Activate { path, update_password } && path == p
                    && !update_password,
                None => r matches ConnectStep::Fail(m) && m@
                    == "No saved connection profile available"@,
            },
        },
{
    match &entry.kind {
        crate::app::NetworkKind::Wireless { security, .. } => {
            if contains(security.as_str(), "Enterprise") {
                return ConnectStep::Fail(
                    String::from_str("WPA-Enterprise is not supported by this TUI yet"),
                );
            }
            if let Some(p) = password {
                if let Err(m) = validate_wifi_password(security.as_str(), p) {
                    return ConnectStep::Fail(m);
                }
            }
            match &entry.connection_path {
                Some(p) => ConnectStep::Activate {
                    path: p.clone(),
                    update_password: password.is_some(),
                },
                None => ConnectStep::FindSaved,
            }
        },
        crate::app::NetworkKind::Wired { .. } => match &entry.connection_path {
            Some(p) => ConnectStep::Activate { path: p.clone(), update_password: false },
            None => ConnectStep::Fail(String::from_str("No saved connection profile available")),
        },
    }
}

/// The step after looking for a saved profile: activate the one found
/// (storing the password first when one was given), or create a new one.
pub fn connect_after_search(password: Option<&str>, found: Option<String>) -> (r: ConnectStep)
    ensures
        match found {
            Some(p) => r matches ConnectStep::Activate { path, update_password } && path == p
                && update_password == password is Some,
            None => r is Create,
        },
{
    match found {
        Some(p) => ConnectStep::Activate { path: p, update_password: password.is_some() },
        None => ConnectStep::Create,
    }
}

/// The object to activate a profile on: for Wi-Fi the access point when it is
/// known, otherwise `/`.
pub open spec fn specific_object_spec(entry: crate::app::NetworkEntry) -> Seq<char> {
    match entry.kind {
        crate::app::NetworkKind::Wireless { .. } => access_point_object_spec(entry),
        crate::app::NetworkKind::Wired { .. } => "/"@,
    }
}

/// The access point of an entry when it is known and not empty, otherwise `/`.
pub open spec fn access_point_object_spec(entry: crate::app::NetworkEntry) -> Seq<char> {
    match entry.ap_path {
        Some(p) => if p@.len() > 0 {
            p@
        } else {
            "/"@
        },
        None => "/"@,
    }
}

/// The access point path to hand to `AddAndActivateConnection`.
pub fn access_point_object(entry: &crate::app::NetworkEntry) -> (r: String)
    ensures
        r@ == access_point_object_spec(*entry),
{
    match &entry.ap_path {
        Some(p) => {
            if p.as_str().unicode_len() > 0 {
                p.clone()
            } else {
                String::from_str("/")
            }
        },
        None => String::from_str("/"),
    }
}

/// The specific object to hand to `ActivateConnection`.
pub fn specific_object(entry: &crate::app::NetworkEntry) -> (r: String)
    ensures
        r@ == specific_object_spec(*entry),
{
    match &entry.kind {
        crate::app::NetworkKind::Wireless { .. } => access_point_object(entry),
        _ => String::from_str("/"),
    }
}

/// Whether a saved profile is the Wi-Fi profile for `ssid`: its type is
/// `802-11-wireless` and its SSID matches.
pub fn is_saved_wifi_for(conn_type: Option<&str>, profile_ssid: Option<&str>, ssid: &str) -> (b:
    bool)
    ensures
        b == (match (conn_type, profile_ssid) {
            (Some(t), Some(s)) => t@ == "802-11-wireless"@ && s@ == ssid@,
            _ => false,
        }),
{
    match (conn_type, profile_ssid) {
        (Some(t), Some(s)) => str_eq(t, "802-11-wireless") && str_eq(s, ssid),
        _ => false,
    }
}

/// The address of a device as `address/prefix`.
pub fn address_with_prefix(address: &str, prefix: u32) -> (r: String)
    ensures
        r@ == address@ + seq!['/'] + crate::text::decimal(prefix as nat),
{
    let mut r = String::from_str(address);
    push_char(&mut r, '/');
    crate::text::push_decimal(&mut r, prefix as u64);
    r
}

// ---------------------------------------------------------------------------
// Reading a saved Wi-Fi password
// ---------------------------------------------------------------------------

/// The first value that is present and not empty.
pub open spec fn first_secret_from(s: Seq<Option<String>>, i: int) -> Option<Seq<char>>
    decreases s.len() - i,
{
    if i < 0 || i >= s.len() {
        None
    } else if s[i] is Some && s[i]->0@.len() > 0 {
        Some(s[i]->0@)
    } else {
        first_secret_from(s, i + 1)
    }
}

/// The secret of a security section: the first of its `psk`, `password` and
/// `wep-key0` values (in that order, as given) that is present and not empty.
pub fn first_secret(values: &Vec<Option<String>>) -> (r: Option<String>)
    ensures
        crate::netlist::opt_view(r) == first_secret_from(values@, 0),
{
    let n = values.len();
    let mut i: usize = 0;
    while i < n
        invariant
            n == values@.len(),
            i <= n,
            first_secret_from(values@, i as int) == first_secret_from(values@, 0),
        decreases n - i,
    {
        if let Some(v) = &values[i] {
            if v.as_str().unicode_len() > 0 {
                return Some(v.clone());
            }
        }
        i = i + 1;
    }
    None
}

/// The profile to ask `nmcli` about: its UUID, else its id.
pub fn password_prompt_target(uuid: Option<String>, id: Option<String>) -> (r: Result<
    String,
    String,
>)
    ensures
        match (uuid, id) {
            (Some(u), _) => r == Ok::<String, String>(u),
            (None, Some(i)) => r == Ok::<String, String>(i),
            (None, None) => r is Err && r->Err_0@ == "Could not determine connection UUID or ID"@,
        },
{
    match uuid {
        Some(u) => Ok(u),
        None => match id {
            Some(i) => Ok(i),
            None => Err(String::from_str("Could not determine connection UUID or ID")),
        },
    }
}

/// `s` with each `'` written as `'\''`, so that it can stand between single
/// quotes in a shell command.
pub open spec fn shell_quote_seq(s: Seq<char>) -> Seq<char>
    decreases s.len(),
{
    if s.len() == 0 {
        Seq::empty()
    } else {
        shell_quote_seq(s.drop_last()) + if s.last() == '\'' {
            seq!['\'', '\\', '\'', '\'']
        } else {
            seq![s.last()]
        }
    }
}

/// Escapes single quotes for use inside a single-quoted shell word.
pub fn shell_quote_escape(s: &str) -> (r: String)
    ensures
        r@ == shell_quote_seq(s@),
{
    let v = crate::text::chars_of(s);
    let mut r = String::new();
    let mut i: usize = 0;
    while i < v.len()
        invariant
            v@ == s@,
            i <= v@.len(),
            r@ == shell_quote_seq(v@.take(i as int)),
        decreases v.len() - i,
    {
        let c = v[i];
        if c == '\'' {
            push_char(&mut r, '\'');
            push_char(&mut r, '\\');
            push_char(&mut r, '\'');
            push_char(&mut r, '\'');
        } else {
            push_char(&mut r, c);
        }
        assert(v@.take(i + 1).drop_last() =~= v@.take(i as int));
        i = i + 1;
        assert(r@ =~= shell_quote_seq(v@.take(i as int)));
    }
    assert(v@.take(v@.len() as int) =~= v@);
    r
}

/// How a POSIX shell reads a word made of single-quoted runs and
/// backslash-escaped characters (`in_quotes` tells whether a single-quoted run
/// is open); `None` when a quote is left open.
pub open spec fn shell_word(t: Seq<char>, in_quotes: bool) -> Option<Seq<char>>
    decreases t.len(),
{
    if t.len() == 0 {
        if in_quotes {
            None
        } else {
            Some(Seq::empty())
        }
    } else if in_quotes {
        if t[0] == '\'' {
            shell_word(t.skip(1), false)
        } else {
            match shell_word(t.skip(1), true) {
                Some(r) => Some(seq![t[0]] + r),
                None => None,
            }
        }
    } else if t[0] == '\'' {
        shell_word(t.skip(1), true)
    } else if t[0] == '\\' && t.len() >= 2 {
        match shell_word(t.skip(2), false) {
            Some(r) => Some(seq![t[1]] + r),
            None => None,
        }
    } else {
        match shell_word(t.skip(1), false) {
            Some(r) => Some(seq![t[0]] + r),
            None => None,
        }
    }
}

proof fn lemma_shell_quote_concat(a: Seq<char>, b: Seq<char>)
    ensures
        shell_quote_seq(a + b) == shell_quote_seq(a) + shell_quote_seq(b),
    decreases b.len(),
{
    if b.len() == 0 {
        assert(a + b =~= a);
        assert(shell_quote_seq(a) + shell_quote_seq(b) =~= shell_quote_seq(a));
    } else {
        assert((a + b).drop_last() =~= a + b.drop_last());
        lemma_shell_quote_concat(a, b.drop_last());
        assert(shell_quote_seq(a + b) =~= shell_quote_seq(a) + shell_quote_seq(b));
    }
}

proof fn lemma_shell_word_quoted(s: Seq<char>, tail: Seq<char>)
    ensures
        shell_word(shell_quote_seq(s) + tail, true) == match shell_word(tail, true) {
            Some(r) => Some(s + r),
            None => None::<Seq<char>>,
        },
    decreases s.len(),
{
    if s.len() == 0 {
        assert(shell_quote_seq(s) + tail =~= tail);
        match shell_word(tail, true) {
            Some(r) => {
                assert(s + r =~= r);
            },
            None => {},
        }
    } else {
        let c = s[0];
        let rest = s.drop_first();
        assert(s =~= seq![c] + rest);
        lemma_shell_quote_concat(seq![c], rest);
        assert(seq![c].drop_last() =~= Seq::<char>::empty());
        assert(shell_quote_seq(Seq::<char>::empty()) == Seq::<char>::empty());
        let piece = if c == '\'' {
            seq!['\'', '\\', '\'', '\'']
        } else {
            seq![c]
        };
        assert(shell_quote_seq(seq![c]) =~= piece);
        let x = shell_quote_seq(rest) + tail;
        lemma_shell_word_quoted(rest, tail);
        let t = piece + x;
        assert(shell_quote_seq(s) + tail =~= t);
        if c == '\'' {
            let t1 = t.skip(1);
            let t2 = t1.skip(2);
            assert(t1 =~= seq!['\\', '\'', '\''] + x);
            assert(t2 =~= seq!['\''] + x);
            assert(t2.skip(1) =~= x);
            assert(shell_word(t2, false) == shell_word(x, true));
            assert(t1[1] == '\'');
            assert(shell_word(t1, false) == match shell_word(t2, false) {
                Some(r) => Some(seq!['\''] + r),
                None => None::<Seq<char>>,
            });
            assert(shell_word(t, true) == shell_word(t1, false));
        } else {
            assert(t.skip(1) =~= x);
            assert(shell_word(t, true) == match shell_word(x, true) {
                Some(r) => Some(seq![c] + r),
                None => None::<Seq<char>>,
            });
        }
        match shell_word(tail, true) {
            Some(r) => {
                assert(seq![c] + (rest + r) =~= s + r);
            },
            None => {},
        }
    }
}

/// The quoting is sound: the profile name escaped by `shell_quote_escape`
/// and put between single quotes is read by the shell as exactly that name,
/// whatever characters it holds.
pub proof fn law_shell_quote_round_trip(s: Seq<char>)
    ensures
        shell_word(seq!['\''] + shell_quote_seq(s) + seq!['\''], false) == Some(s),
{
    let t = seq!['\''] + shell_quote_seq(s) + seq!['\''];
    assert(t.skip(1) =~= shell_quote_seq(s) + seq!['\'']);
    lemma_shell_word_quoted(s, seq!['\'']);
    assert(seq!['\''].skip(1) =~= Seq::<char>::empty());
    assert(shell_word(Seq::<char>::empty(), false) == Some(Seq::<char>::empty()));
    assert(shell_word(seq!['\''], true) == Some(Seq::<char>::empty()));
    assert(s + Seq::<char>::empty() =~= s);
}

/// The file that receives a password read by `nmcli`.
pub fn secret_file_path(rand_id: u64) -> (r: String)
    ensures
        r@ == "/dev/shm/.wtui_secret_"@ + crate::text::decimal(rand_id as nat),
{
    let mut r = String::from_str("/dev/shm/.wtui_secret_");
    crate::text::push_decimal(&mut r, rand_id);
    r
}

/// The shell script that asks `nmcli` (through `sudo`) for the pre-shared key
/// of profile `target` and stores it in `tmp_file`.
pub open spec fn auth_script_spec(target: Seq<char>, tmp_file: Seq<char>) -> Seq<char> {
    "echo -e '\\033[1;34m:: NetworkManager Auth Required\\033[0m'; touch '"@ + tmp_file
        + "' && chmod 600 '"@ + tmp_file
        + "'; if sudo nmcli -s -g 802-11-wireless-security.psk connection show '"@ + target
        + "' > '"@ + tmp_file
        + "'; then exit 0; else echo -e '\\033[1;31mAuthentication failed or cancelled.\\033[0m'; sleep 1.2; exit 1; fi"@
}

/// Builds the password prompt script (see `auth_script_spec`).
pub fn auth_script(target: &str, tmp_file: &str) -> (r: String)
    ensures
        r@ == auth_script_spec(target@, tmp_file@),
{
    let mut r = String::from_str(
        "echo -e '\\033[1;34m:: NetworkManager Auth Required\\033[0m'; touch '",
    );
    r.append(tmp_file);
    r.append("' && chmod 600 '");
    r.append(tmp_file);
    r.append("'; if sudo nmcli -s -g 802-11-wireless-security.psk connection show '");
    r.append(target);
    r.append("' > '");
    r.append(tmp_file);
    r.append(
        "'; then exit 0; else echo -e '\\033[1;31mAuthentication failed or cancelled.\\033[0m'; sleep 1.2; exit 1; fi",
    );
    r
}

/// A program and its arguments.
#[derive(Debug)]
pub struct TerminalCommand {
    pub program: String,
    pub args: Vec<String>,
}

/// The characters of each string.
pub open spec fn strings_view(v: Seq<String>) -> Seq<Seq<char>> {
    v.map_values(|s: String| s@)
}

/// How a terminal emulator is asked to run `bash -c script` in a window
/// titled `wtui-auth` (`kitty`, `alacritty` and `foot` by their own options,
/// any other with `-e`).
pub open spec fn terminal_command_spec(term: Seq<char>, script: Seq<char>) -> (
    Seq<char>,
    Seq<Seq<char>>,
) {
    if term == "kitty"@ {
        ("kitty"@, seq!["--title"@, "wtui-auth"@, "--"@, "bash"@, "-c"@, script])
    } else if term == "alacritty"@ {
        ("alacritty"@, seq!["--title"@, "wtui-auth"@, "-e"@, "bash"@, "-c"@, script])
    } else if term == "foot"@ {
        ("foot"@, seq!["--title"@, "wtui-auth"@, "bash"@, "-c"@, script])
    } else {
        (term, seq!["-e"@, "bash"@, "-c"@, script])
    }
}

fn strs(v: &[&str]) -> (r: Vec<String>)
    ensures
        r@.len() == v@.len(),
        forall|i: int| 0 <= i < v@.len() ==> (#[trigger] r@[i])@ == v@[i]@,
{
    let mut r: Vec<String> = Vec::new();
    let mut i: usize = 0;
    while i < v.len()
        invariant
            i <= v@.len(),
            r@.len() == i,
            forall|k: int| 0 <= k < i ==> (#[trigger] r@[k])@ == v@[k]@,
        decreases v.len() - i,
    {
        r.push(String::from_str(v[i]));
        i = i + 1;
    }
    r
}

/// The command that opens the password prompt in terminal `term`.
pub fn terminal_command(term: &str, script: &str) -> (r: TerminalCommand)
    ensures
        (r.program@, strings_view(r.args@)) == terminal_command_spec(term@, script@),
{
    let mut args: Vec<String>;
    let program: String;
    if str_eq(term, "kitty") {
        program = String::from_str("kitty");
        args = strs(&["--title", "wtui-auth", "--", "bash", "-c"]);
    } else if str_eq(term, "alacritty") {
        program = String::from_str("alacritty");
        args = strs(&["--title", "wtui-auth", "-e", "bash", "-c"]);
    } else if str_eq(term, "foot") {
        program = String::from_str("foot");
        args = strs(&["--title", "wtui-auth", "bash", "-c"]);
    } else {
        program = String::from_str(term);
        args = strs(&["-e", "bash", "-c"]);
    }
    let ghost before = args@;
    args.push(String::from_str(script));
    assert(strings_view(args@) =~= terminal_command_spec(term@, script@).1);
    TerminalCommand { program, args }
}

/// The password read by the prompt: the file's contents without surrounding
/// white space, when the prompt succeeded; an error when nothing came back.
pub open spec fn prompt_result_spec(succeeded: bool, contents: Option<Seq<char>>) -> Result<
    Seq<char>,
    Seq<char>,
> {
    let pw = match contents {
        Some(c) => if succeeded {
            crate::text::trim_seq(c)
        } else {
            Seq::empty()
        },
        None => Seq::empty(),
    };
    if pw.len() == 0 {
        Err("Password prompt failed or returned empty"@)
    } else {
        Ok(pw)
    }
}

/// The outcome of the password prompt (see `prompt_result_spec`).
pub fn prompt_password_result(succeeded: bool, contents: Option<String>) -> (r: Result<
    String,
    String,
>)
    ensures
        match prompt_result_spec(
            succeeded,
            crate::netlist::opt_view(contents),
        ) {
            Ok(p) => r is Ok && r->Ok_0@ == p,
            Err(m) => r is Err && r->Err_0@ == m,
        },
{
    let pw = match contents {
        Some(c) => if succeeded {
            crate::text::trim(c.as_str())
        } else {
            String::new()
        },
        None => String::new(),
    };
    if pw.as_str().unicode_len() == 0 {
        Err(String::from_str("Password prompt failed or returned empty"))
    } else {
        Ok(pw)
    }
}

} // verus!
