//! The event loop's decisions: what a key press does to the state and which
//! background work it starts, how events from that work are applied, and the
//! status messages the background work reports.

use vstd::prelude::*;
use crate::app::{
    any_connected, App, NetworkEntry, NetworkKind, UiEvent, ViewMode, find_name_from, next_index,
    prev_index,
};
use crate::nm::password_error;
use crate::text::{contains, join2, join3, lowercase, push_char, seq_contains, str_eq, to_lowercase};

verus! {

// ---------------------------------------------------------------------------
// Password rules of the dialog
// ---------------------------------------------------------------------------

/// The dialog refuses a WPA/WPA2 password of fewer than 8 or more than 63
/// bytes, unless it is 64 bytes long; other kinds of security are not checked.
pub open spec fn invalid_wpa_spec(security: Seq<char>, byte_len: nat) -> bool {
    if seq_contains(security, "Open"@) || seq_contains(security, "Enterprise"@) || seq_contains(
        security,
        "SAE"@,
    ) || seq_contains(security, "WEP"@) {
        false
    } else if byte_len == 64 {
        false
    } else {
        byte_len < 8 || byte_len > 63
    }
}

/// Whether the dialog refuses `password` for a network of `security`.
pub fn invalid_wpa_password(security: &str, password: &str) -> (b: bool)
    ensures
        b == invalid_wpa_spec(security@, vstd::utf8::encode_utf8(password@).len()),
{
    if contains(security, "Open") || contains(security, "Enterprise") || contains(security, "SAE")
        || contains(security, "WEP") {
        return false;
    }
    let n = password.as_bytes().len();
    if n == 64 {
        return false;
    }
    n < 8 || n > 63
}

/// The dialog and the connection step agree: for any network that is not
/// WPA-Enterprise, the dialog refuses exactly the passwords that connecting
/// would refuse.
pub proof fn law_dialog_matches_validation(security: Seq<char>, byte_len: nat)
    requires
        !seq_contains(security, "Enterprise"@),
    ensures
        invalid_wpa_spec(security, byte_len) <==> password_error(security, byte_len) is Some,
{
}

// ---------------------------------------------------------------------------
// Keys and commands
// ---------------------------------------------------------------------------

/// A key press, as the event loop sees it.
#[derive(Debug, Clone, Copy, PartialEq, Eq, Structural)]
pub enum Key {
    Char(char),
    Esc,
    Enter,
    Backspace,
    Up,
    Down,
    Other,
}

/// Background work that a key press asks for.
#[derive(Debug)]
pub enum Command {
    /// Nothing to start.
    Nothing,
    /// Connect to a network, with a password typed in the dialog if any.
    Connect { entry: NetworkEntry, password: Option<String> },
    /// Disconnect a network's device.
    Disconnect(NetworkEntry),
    /// Read the saved password of the profile at this path, for the QR code.
    FetchPassword(String),
    /// Set the autoconnect flag of the profile at `path`.
    SetAutoconnect { path: String, enable: bool },
    /// Rescan the networks and announce when done.
    Refresh,
}

/// The words `true` and `false`.
pub open spec fn bool_text(b: bool) -> Seq<char> {
    if b {
        "true"@
    } else {
        "false"@
    }
}

fn bool_string(b: bool) -> (r: String)
    ensures
        r@ == bool_text(b),
{
    if b {
        String::from_str("true")
    } else {
        String::from_str("false")
    }
}

/// Removes the last character of a string.
/// Trusted: calls `String::pop`, which std documents as removing the last
/// character and returning it, or returning `None` on an empty string.
#[verifier::external_body]
pub(crate) fn pop_char(s: &mut String) -> (r: Option<char>)
    ensures
        old(s)@.len() == 0 ==> r is None && final(s)@ == old(s)@,
        old(s)@.len() > 0 ==> r == Some(old(s)@.last()) && final(s)@ == old(s)@.drop_last(),
{
    s.pop()
}

/// A Wi-Fi network that needs a password typed before connecting: secured,
/// not WPA-Enterprise, and with no saved profile.
pub open spec fn asks_password_first(e: NetworkEntry) -> bool {
    match e.kind {
        NetworkKind::Wireless { security, .. } => security@ != "Open"@ && !seq_contains(
            security@,
            "Enterprise"@,
        ) && e.connection_path is None,
        NetworkKind::Wired { .. } => false,
    }
}

/// Everything of the state but the password dialog is as before.
pub open spec fn same_but_modal(a: App, b: App) -> bool {
    &&& a.networks@ == b.networks@
    &&& a.selected_index == b.selected_index
    &&& a.show_qr == b.show_qr
    &&& a.qr_password == b.qr_password
    &&& a.should_quit == b.should_quit
    &&& a.view_mode == b.view_mode
    &&& a.speed_test == b.speed_test
    &&& a.anim_frame == b.anim_frame
}

/// Everything of the state but the status line is as before.
pub open spec fn same_but_status(a: App, b: App) -> bool {
    &&& same_but_modal(a, b)
    &&& a.password_modal == b.password_modal
}

/// What a key press does while the password dialog is open: Esc closes and
/// clears it; Backspace and characters edit the input; Enter refuses an empty
/// password or (for WPA/WPA2) one of the wrong length with a message in the
/// dialog, and otherwise closes the dialog and asks to connect with the typed
/// password. Nothing outside the dialog changes.
pub open spec fn modal_key_outcome(before: App, after: App, key: Key, c: Command) -> bool {
    let m = before.password_modal;
    let m2 = after.password_modal;
    &&& same_but_modal(before, after)
    &&& after.status_message == before.status_message
    &&& match key {
        Key::Esc => c is Nothing && m2.is_cleared(),
        Key::Backspace => {
            &&& c is Nothing
            &&& m2.input@ == (if m.input@.len() == 0 {
                m.input@
            } else {
                m.input@.drop_last()
            })
            &&& m2.open == m.open && m2.entry == m.entry && m2.error == m.error
        },
        Key::Char(ch) => {
            &&& c is Nothing
            &&& m2.input@ == m.input@.push(ch)
            &&& m2.open == m.open && m2.entry == m.entry && m2.error == m.error
        },
        Key::Enter => match m.entry {
            None => c is Nothing && m2 == m,
            Some(e) => if m.input@.len() == 0 {
                &&& c is Nothing
                &&& (m2.error matches Some(x) && x@ == "Password cannot be empty"@)
                &&& m2.open == m.open && m2.entry == m.entry && m2.input == m.input
            } else {
                match e.kind {
                    NetworkKind::Wireless { security, .. } => if invalid_wpa_spec(
                        security@,
                        vstd::utf8::encode_utf8(m.input@).len(),
                    ) {
                        &&& c is Nothing
                        &&& (m2.error matches Some(x) && x@
                            == "WPA/WPA2 password must be 8-63 characters"@)
                        &&& m2.open == m.open && m2.entry == m.entry && m2.input == m.input
                    } else {
                        &&& m2.is_cleared()
                        &&& c is Connect
                        &&& c->Connect_entry == e
                        &&& c->Connect_password is Some
                        &&& c->Connect_password->0@ == m.input@
                    },
                    NetworkKind::Wired { .. } => c is Nothing && m2 == m,
                }
            },
        },
        _ => c is Nothing && m2 == m,
    }
}

/// The keys of the main screens.
pub open spec fn is_main_key(key: Key) -> bool {
    key == Key::Esc || key == Key::Enter || key == Key::Up || key == Key::Down || key
        == Key::Char('q') || key == Key::Char('n') || key == Key::Char('j') || key == Key::Char(
        'k',
    ) || key == Key::Char('s') || key == Key::Char('a') || key == Key::Char('c') || key
        == Key::Char('r')
}

/// What a key press does on the main screens (see the clauses).
pub open spec fn normal_key_outcome(before: App, after: App, key: Key, c: Command) -> bool {
    let normal = before.view_mode == ViewMode::Normal;
    let n = before.networks@.len() as int;
    let moves = key == Key::Char('j') || key == Key::Down || key == Key::Char('k') || key
        == Key::Up;
    let quits = key == Key::Char('q') || key == Key::Esc;
    let connects = key == Key::Char('c') || key == Key::Enter;
    &&& after.networks@ == before.networks@
    // what each key leaves alone
    &&& after.anim_frame == before.anim_frame
    &&& key != Key::Char('s') ==> after.show_qr == before.show_qr
    &&& !(moves || key == Key::Char('s')) ==> after.qr_password == before.qr_password
    &&& !moves ==> after.selected_index == before.selected_index
    &&& !quits ==> after.should_quit == before.should_quit
    &&& !(quits || key == Key::Char('n')) ==> after.view_mode == before.view_mode
    &&& !(key == Key::Char('n') || key == Key::Char('r')) ==> after.speed_test
        == before.speed_test
    &&& !connects ==> after.password_modal == before.password_modal
    // keys without a meaning change nothing
    &&& !is_main_key(key) ==> c is Nothing && after == before
    // quit, or leave the speed test
    &&& (key == Key::Char('q') || key == Key::Esc) ==> c is Nothing && if !normal {
        &&& after.status_message@ == "Returned to networks"@
        &&& same_but_status(App { view_mode: ViewMode::Normal, ..before }, after)
    } else {
        &&& after.status_message == before.status_message
        &&& same_but_status(App { should_quit: true, ..before }, after)
    }
    // speed test on or off
    &&& key == Key::Char('n') ==> {
        &&& c is Nothing
        &&& after.password_modal == before.password_modal
        &&& after.selected_index == before.selected_index
        &&& after.should_quit == before.should_quit
        &&& if !normal {
            after.view_mode == ViewMode::Normal && after.status_message@
                == "Returned to networks"@ && after.speed_test == before.speed_test
        } else if any_connected(before.networks@) {
            &&& after.view_mode == ViewMode::SpeedTest
            &&& after.speed_test.is_running
            &&& after.speed_test.progress_pct == 0
            &&& after.speed_test.ping_tenth_ms is None
            &&& after.speed_test.download_tenth_mbps is None
            &&& after.speed_test.upload_tenth_mbps is None
            &&& after.speed_test.stage@ == "Measuring latency..."@
            &&& after.status_message == before.status_message
        } else {
            after.view_mode == ViewMode::Normal && after.status_message@
                == "network not connected"@ && after.speed_test == before.speed_test
        }
    }
    // moving the selection (on the network list only)
    &&& (key == Key::Char('j') || key == Key::Down || key == Key::Char('k') || key == Key::Up)
        ==> {
        &&& c is Nothing
        &&& after.selected_index == (if !normal {
            before.selected_index as int
        } else if key == Key::Char('j') || key == Key::Down {
            next_index(before.selected_index as int, n)
        } else {
            prev_index(before.selected_index as int, n)
        })
        &&& after.qr_password == (if normal && n > 0 {
            None
        } else {
            before.qr_password
        })
        &&& after.status_message == before.status_message
        &&& after.password_modal == before.password_modal
        &&& after.view_mode == before.view_mode
        &&& after.should_quit == before.should_quit
    }
    // the QR pane
    &&& key == Key::Char('s') ==> {
        &&& after.password_modal == before.password_modal
        &&& if normal {
            &&& after.show_qr == !before.show_qr
            &&& if !before.show_qr {
                match before.selected_spec() {
                    Some(e) => match e.connection_path {
                        Some(p) => c == Command::FetchPassword(p) && after.status_message@
                            == "Fetching password for QR code..."@ && after.qr_password
                            == before.qr_password,
                        None => c is Nothing && (after.qr_password matches Some(x) && x@.len()
                            == 0) && after.status_message@
                            == "No saved profile; cannot fetch password"@,
                    },
                    None => c is Nothing && after.qr_password == before.qr_password
                        && after.status_message == before.status_message,
                }
            } else {
                c is Nothing && after.qr_password is None && after.status_message
                    == before.status_message
            }
        } else {
            c is Nothing && after == before
        }
    }
    // autoconnect
    &&& key == Key::Char('a') ==> {
        &&& same_but_status(before, after)
        &&& if normal {
            match before.selected_spec() {
                Some(e) => match e.connection_path {
                    Some(p) => c == Command::SetAutoconnect { path: p, enable: !e.autoconnect }
                        && after.status_message@ == "Setting autoconnect to "@ + bool_text(
                        !e.autoconnect,
                    ) + "..."@,
                    None => c is Nothing && after.status_message@
                        == "No saved connection profile to set autoconnect"@,
                },
                None => c is Nothing && after.status_message == before.status_message,
            }
        } else {
            c is Nothing && after.status_message == before.status_message
        }
    }
    // connect or disconnect
    &&& (key == Key::Char('c') || key == Key::Enter) ==> {
        &&& same_but_modal(before, after)
        &&& if normal {
            match before.selected_spec() {
                Some(e) => if e.is_connected {
                    c == Command::Disconnect(e) && after.password_modal == before.password_modal
                        && after.status_message == before.status_message
                } else if asks_password_first(e) {
                    &&& c is Nothing
                    &&& after.password_modal.open
                    &&& after.password_modal.entry == Some(e)
                    &&& after.password_modal.input@.len() == 0
                    &&& after.password_modal.error is None
                    &&& after.status_message@ == "Password required for "@ + e.name@
                } else {
                    c == Command::Connect { entry: e, password: None } && after.password_modal
                        == before.password_modal && after.status_message == before.status_message
                },
                None => c is Nothing && after.password_modal == before.password_modal
                    && after.status_message == before.status_message,
            }
        } else {
            c is Nothing && after.password_modal == before.password_modal
                && after.status_message == before.status_message
        }
    }
    // rescan, or restart the speed test
    &&& key == Key::Char('r') ==> if normal {
        c is Refresh && after.status_message@ == "Scanning for networks..."@ && same_but_status(
            before,
            after,
        )
    } else {
        &&& c is Nothing
        &&& after.speed_test.is_running
        &&& after.speed_test.progress_pct == 0
        &&& after.speed_test.ping_tenth_ms is None
        &&& after.speed_test.download_tenth_mbps is None
        &&& after.speed_test.upload_tenth_mbps is None
        &&& after.speed_test.stage@ == "Measuring latency..."@
        &&& after.status_message == before.status_message
        &&& after.password_modal == before.password_modal
        &&& after.view_mode == before.view_mode
    }
}

impl App {
    /// A key press while the password dialog is open: Esc closes it, Enter
    /// submits the typed password, Backspace and characters edit it.
    pub fn handle_modal_key(&mut self, key: Key) -> (c: Command)
        ensures
            modal_key_outcome(*old(self), *final(self), key, c),
    {
        match key {
            Key::Esc => {
                self.close_password_modal();
                Command::Nothing
            },
            Key::Enter => {
                match &self.password_modal.entry {
                    None => Command::Nothing,
                    Some(e) => {
                        let entry = e.clone();
                        let password = self.password_modal.input.clone();
                        if password.as_str().unicode_len() == 0 {
                            self.password_modal.error = Some(
                                String::from_str("Password cannot be empty"),
                            );
                            Command::Nothing
                        } else {
                            let invalid = match &entry.kind {
                                NetworkKind::Wireless { security, .. } => Some(
                                    invalid_wpa_password(security.as_str(), password.as_str()),
                                ),
                                NetworkKind::Wired { .. } => None,
                            };
                            match invalid {
                                None => Command::Nothing,
                                Some(true) => {
                                    self.password_modal.error = Some(
                                        String::from_str(
                                            "WPA/WPA2 password must be 8-63 characters",
                                        ),
                                    );
                                    Command::Nothing
                                },
                                Some(false) => {
                                    self.close_password_modal();
                                    Command::Connect { entry, password: Some(password) }
                                },
                            }
                        }
                    },
                }
            },
            Key::Backspace => {
                pop_char(&mut self.password_modal.input);
                Command::Nothing
            },
            Key::Char(ch) => {
                push_char(&mut self.password_modal.input, ch);
                Command::Nothing
            },
            _ => Command::Nothing,
        }
    }

    /// A key press on the main screens.
    pub fn handle_normal_key(&mut self, key: Key) -> (c: Command)
        ensures
            normal_key_outcome(*old(self), *final(self), key, c),
    {
        match key {
            Key::Char('q') | Key::Esc => {
                if self.view_mode == ViewMode::SpeedTest {
                    self.view_mode = ViewMode::Normal;
                    self.set_status(String::from_str("Returned to networks"));
                } else {
                    self.should_quit = true;
                }
                Command::Nothing
            },
            Key::Char('n') => {
                self.toggle_speed_test();
                Command::Nothing
            },
            Key::Char('j') | Key::Down => {
                if self.view_mode == ViewMode::Normal {
                    self.next_network();
                }
                Command::Nothing
            },
            Key::Char('k') | Key::Up => {
                if self.view_mode == ViewMode::Normal {
                    self.previous_network();
                }
                Command::Nothing
            },
            Key::Char('s') => {
                if self.view_mode != ViewMode::Normal {
                    return Command::Nothing;
                }
                let turning_on = !self.show_qr;
                self.toggle_qr();
                if !turning_on {
                    return Command::Nothing;
                }
                match self.selected_network_cloned() {
                    Some(entry) => match entry.connection_path {
                        Some(p) => {
                            self.set_status(String::from_str("Fetching password for QR code..."));
                            Command::FetchPassword(p)
                        },
                        None => {
                            self.qr_password = Some(String::new());
                            self.set_status(
                                String::from_str("No saved profile; cannot fetch password"),
                            );
                            Command::Nothing
                        },
                    },
                    None => Command::Nothing,
                }
            },
            Key::Char('a') => {
                if self.view_mode != ViewMode::Normal {
                    return Command::Nothing;
                }
                match self.selected_network_cloned() {
                    Some(entry) => match entry.connection_path {
                        Some(p) => {
                            let new_state = !entry.autoconnect;
                            let word = bool_string(new_state);
                            self.set_status(join3("Setting autoconnect to ", word.as_str(), "..."));
                            Command::SetAutoconnect { path: p, enable: new_state }
                        },
                        None => {
                            self.set_status(
                                String::from_str(
                                    "No saved connection profile to set autoconnect",
                                ),
                            );
                            Command::Nothing
                        },
                    },
                    None => Command::Nothing,
                }
            },
            Key::Char('c') | Key::Enter => {
                if self.view_mode != ViewMode::Normal {
                    return Command::Nothing;
                }
                match self.selected_network_cloned() {
                    Some(entry) => {
                        if entry.is_connected {
                            return Command::Disconnect(entry);
                        }
                        let ask = match &entry.kind {
                            NetworkKind::Wireless { security, .. } => !str_eq(
                                security.as_str(),
                                "Open",
                            ) && !contains(security.as_str(), "Enterprise")
                                && entry.connection_path.is_none(),
                            _ => false,
                        };
                        if ask {
                            self.open_password_modal(entry);
                            Command::Nothing
                        } else {
                            Command::Connect { entry, password: None }
                        }
                    },
                    None => Command::Nothing,
                }
            },
            Key::Char('r') => {
                if self.view_mode == ViewMode::Normal {
                    self.set_status(String::from_str("Scanning for networks..."));
                    Command::Refresh
                } else {
                    self.start_speed_test();
                    Command::Nothing
                }
            },
            _ => Command::Nothing,
        }
    }

    /// A key press: to the password dialog when it is open, otherwise to the
    /// main screens.
    pub fn handle_key(&mut self, key: Key) -> (c: Command)
        ensures
            if old(self).password_modal.open {
                modal_key_outcome(*old(self), *final(self), key, c)
            } else {
                normal_key_outcome(*old(self), *final(self), key, c)
            },
    {
        if self.password_modal.open {
            self.handle_modal_key(key)
        } else {
            self.handle_normal_key(key)
        }
    }
}

// ---------------------------------------------------------------------------
// Events from background work
// ---------------------------------------------------------------------------

/// What the event loop has to do after an event was applied.
#[derive(Debug, Clone, Copy, PartialEq, Eq, Structural)]
pub enum EventEffect {
    /// Nothing more.
    Nothing,
    /// A refresh has finished; the loop may schedule the next one.
    RefreshFinished,
    /// Start a refresh in the background.
    StartRefresh,
}

/// The list was replaced by `list`, the selection following the selected
/// network (see `reselected_index`), and nothing else but the status changed.
pub open spec fn refreshed(before: App, after: App, list: Seq<NetworkEntry>) -> bool {
    &&& after.networks@ == list
    &&& after.selected_index == before.reselected_index(list)
    &&& after.selection_valid()
    &&& same_but_status(
        App { networks: after.networks, selected_index: after.selected_index, ..before },
        after,
    )
}

/// What an event from background work does to the state, and what the loop
/// has to do next.
pub open spec fn event_outcome(before: App, after: App, event: UiEvent, eff: EventEffect) -> bool {
    match event {
        UiEvent::Status(m) => {
            &&& eff == EventEffect::Nothing
            &&& after.status_message@ == m@
            &&& same_but_status(before, after)
        },
        UiEvent::Networks(Ok(list)) => {
            &&& eff == EventEffect::RefreshFinished
            &&& refreshed(before, after, list@)
            &&& after.status_message == before.status_message
        },
        UiEvent::Networks(Err(e)) => {
            &&& eff == EventEffect::RefreshFinished
            &&& after.status_message@ == "Refresh failed: "@ + e@
            &&& same_but_status(before, after)
        },
        UiEvent::PasswordFetched(Ok(p)) => {
            &&& eff == EventEffect::Nothing
            &&& after.status_message@ == "Password loaded for QR code"@
            &&& same_but_status(App { qr_password: Some(p), ..before }, after)
        },
        UiEvent::PasswordFetched(Err(e)) => {
            &&& eff == EventEffect::Nothing
            &&& (after.qr_password matches Some(x) && x@.len() == 0)
            &&& after.status_message@ == "Password error: "@ + e@
            &&& same_but_status(App { qr_password: after.qr_password, ..before }, after)
        },
        UiEvent::RequestRefresh => eff == EventEffect::StartRefresh && after == before,
        UiEvent::NeedPassword(entry) => {
            &&& eff == EventEffect::Nothing
            &&& after.password_modal.open
            &&& after.password_modal.entry == Some(entry)
            &&& after.password_modal.input@.len() == 0
            &&& after.password_modal.error is None
            &&& after.status_message@ == "Password required for "@ + entry.name@
            &&& same_but_modal(before, after)
        },
    }
}

impl App {
    /// Applies an event from background work to the state.
    pub fn handle_event(&mut self, event: UiEvent) -> (eff: EventEffect)
        ensures
            event_outcome(*old(self), *final(self), event, eff),
    {
        match event {
            UiEvent::Status(m) => {
                self.set_status(m);
                EventEffect::Nothing
            },
            UiEvent::Networks(result) => {
                match result {
                    Ok(list) => self.set_networks(list),
                    Err(e) => self.set_status(join2("Refresh failed: ", e.as_str())),
                }
                EventEffect::RefreshFinished
            },
            UiEvent::PasswordFetched(result) => {
                match result {
                    Ok(p) => {
                        self.qr_password = Some(p);
                        self.set_status(String::from_str("Password loaded for QR code"));
                    },
                    Err(e) => {
                        self.qr_password = Some(String::new());
                        self.set_status(join2("Password error: ", e.as_str()));
                    },
                }
                EventEffect::Nothing
            },
            UiEvent::RequestRefresh => EventEffect::StartRefresh,
            UiEvent::NeedPassword(entry) => {
                self.open_password_modal(entry);
                EventEffect::Nothing
            },
        }
    }

    /// Applies the first load of the network list: the list and `Ready`, or
    /// the error on the status line.
    pub fn apply_initial_load(&mut self, result: Result<Vec<NetworkEntry>, String>)
        ensures
            match result {
                Ok(list) => {
                    &&& refreshed(*old(self), *final(self), list@)
                    &&& final(self).status_message@ == "Ready"@
                },
                Err(e) => {
                    &&& final(self).status_message@ == "D-Bus error: "@ + e@
                    &&& same_but_status(*old(self), *final(self))
                },
            },
    {
        match result {
            Ok(list) => {
                self.set_networks(list);
                self.set_status(String::from_str("Ready"));
            },
            Err(e) => self.set_status(join2("D-Bus error: ", e.as_str())),
        }
    }
}

/// The events a finished refresh reports: the new list (or the error), and
/// `Scan complete` when the refresh was asked for and succeeded.
pub fn refresh_events(result: Result<Vec<NetworkEntry>, String>, announce: bool) -> (v: Vec<
    UiEvent,
>)
    ensures
        v@.len() == (if announce && result is Ok {
            2int
        } else {
            1int
        }),
        v@[0] == UiEvent::Networks(result),
        v@.len() == 2 ==> (v@[1] matches UiEvent::Status(m) && m@ == "Scan complete"@),
{
    let ok = result.is_ok();
    let mut v: Vec<UiEvent> = Vec::new();
    v.push(UiEvent::Networks(result));
    if announce && ok {
        v.push(UiEvent::Status(String::from_str("Scan complete")));
    }
    v
}

/// Whether the periodic refresh is due: none is running, the password dialog
/// is closed, and the interval has passed since the last one.
pub fn should_auto_refresh(
    refresh_pending: bool,
    modal_open: bool,
    since_last_ms: u128,
    interval_ms: u128,
) -> (b: bool)
    ensures
        b == (!refresh_pending && !modal_open && since_last_ms >= interval_ms),
{
    !refresh_pending && !modal_open && since_last_ms >= interval_ms
}

/// How long to wait for input before the next tick (0 when it is due).
pub fn tick_timeout_ms(tick_ms: u128, since_tick_ms: u128) -> (t: u128)
    ensures
        t == (if since_tick_ms <= tick_ms {
            tick_ms - since_tick_ms
        } else {
            0
        }),
{
    if since_tick_ms <= tick_ms {
        tick_ms - since_tick_ms
    } else {
        0
    }
}

// ---------------------------------------------------------------------------
// Status messages of connecting and disconnecting
// ---------------------------------------------------------------------------

/// `Connecting to NAME...`
pub fn connecting_status(name: &str) -> (r: String)
    ensures
        r@ == "Connecting to "@ + name@ + "..."@,
{
    join3("Connecting to ", name, "...")
}

/// A failed connection attempt without a typed password whose error mentions
/// secrets asks for a password instead of reporting the failure.
pub open spec fn failure_needs_password(message: Seq<char>, password_given: bool) -> bool {
    let lower = lowercase(message);
    !password_given && (seq_contains(lower, "secret"@) || seq_contains(lower, "psk"@)
        || seq_contains(lower, "802-11-wireless-security"@) || seq_contains(
        lower,
        "no secrets"@,
    ))
}

/// The events reported when connecting to `entry` failed with `message`.
pub fn connect_failure_events(entry: NetworkEntry, message: &str, password_given: bool) -> (v: Vec<
    UiEvent,
>)
    ensures
        if failure_needs_password(message@, password_given) {
            &&& v@.len() == 2
            &&& v@[0] matches UiEvent::Status(m) && m@ == entry.name@ + " requires a password"@
            &&& v@[1] == UiEvent::NeedPassword(entry)
        } else {
            &&& v@.len() == 1
            &&& v@[0] matches UiEvent::Status(m) && m@ == "Connection failed: "@ + message@
        },
{
    let lower = to_lowercase(message);
    let needs = !password_given && (contains(lower.as_str(), "secret") || contains(
        lower.as_str(),
        "psk",
    ) || contains(lower.as_str(), "802-11-wireless-security") || contains(
        lower.as_str(),
        "no secrets",
    ));
    let mut v: Vec<UiEvent> = Vec::new();
    if needs {
        v.push(UiEvent::Status(join2(entry.name.as_str(), " requires a password")));
        v.push(UiEvent::NeedPassword(entry));
    } else {
        v.push(UiEvent::Status(join2("Connection failed: ", message)));
    }
    v
}

/// `Waiting for NAME to activate...`
pub fn activating_status(name: &str) -> (r: String)
    ensures
        r@ == "Waiting for "@ + name@ + " to activate..."@,
{
    join3("Waiting for ", name, " to activate...")
}

/// The report once waiting for activation has ended.
pub fn connect_outcome_status(name: &str, waited: Result<(), String>) -> (r: String)
    ensures
        match waited {
            Ok(_) => r@ == "Connected to "@ + name@,
            Err(e) => r@ == "Connection request sent, but not active yet: "@ + e@,
        },
{
    match waited {
        Ok(_) => join2("Connected to ", name),
        Err(e) => join2("Connection request sent, but not active yet: ", e.as_str()),
    }
}

/// `Disconnecting from NAME...`
pub fn disconnecting_status(name: &str) -> (r: String)
    ensures
        r@ == "Disconnecting from "@ + name@ + "..."@,
{
    join3("Disconnecting from ", name, "...")
}

/// The report when the disconnect request failed.
pub fn disconnect_failure_status(message: &str) -> (r: String)
    ensures
        r@ == "Disconnect failed: "@ + message@,
{
    join2("Disconnect failed: ", message)
}

/// `Waiting for NAME to disconnect...`
pub fn deactivating_status(name: &str) -> (r: String)
    ensures
        r@ == "Waiting for "@ + name@ + " to disconnect..."@,
{
    join3("Waiting for ", name, " to disconnect...")
}

/// The report once waiting for the disconnect has ended.
pub fn disconnect_outcome_status(name: &str, waited: Result<(), String>) -> (r: String)
    ensures
        match waited {
            Ok(_) => r@ == "Disconnected from "@ + name@,
            Err(e) => r@ == "Disconnect requested, but not confirmed yet: "@ + e@,
        },
{
    match waited {
        Ok(_) => join2("Disconnected from ", name),
        Err(e) => join2("Disconnect requested, but not confirmed yet: ", e.as_str()),
    }
}

/// The report once the autoconnect flag was written (or not).
pub fn autoconnect_outcome_status(enable: bool, result: Result<(), String>) -> (r: String)
    ensures
        match result {
            Ok(_) => r@ == "Autoconnect set to "@ + bool_text(enable),
            Err(e) => r@ == "Autoconnect failed: "@ + e@,
        },
{
    match result {
        Ok(_) => {
            let w = bool_string(enable);
            join2("Autoconnect set to ", w.as_str())
        },
        Err(e) => join2("Autoconnect failed: ", e.as_str()),
    }
}


/// Connecting to a secured Wi-Fi network that has no saved profile asks for
/// the password first: on the network list, `c` or Enter on a Wi-Fi network
/// that is not connected, has no saved profile, and whose security is neither
/// "Open" nor an Enterprise kind opens the password dialog for that network
/// and starts no connection.
pub proof fn law_connect_asks_password(before: App, after: App, key: Key, c: Command)
    requires
        normal_key_outcome(before, after, key, c),
        key == Key::Char('c') || key == Key::Enter,
        before.view_mode == ViewMode::Normal,
        before.selected_spec() matches Some(e) && !e.is_connected && e.connection_path is None
            && (e.kind matches NetworkKind::Wireless { security, .. } && security@ != "Open"@
            && !seq_contains(security@, "Enterprise"@)),
    ensures
        c is Nothing,
        after.password_modal.open,
        after.password_modal.entry == before.selected_spec(),
        after.password_modal.input@.len() == 0,
        after.password_modal.error is None,
        after.status_message@ == "Password required for "@ + before.selected_spec()->0.name@,
{
}

/// The other networks are connected to at once: `c` or Enter on a network
/// that is not connected and is wired, open, of an Enterprise kind, or has a
/// saved profile starts connecting to it without a password and leaves the
/// password dialog as it was.
pub proof fn law_connect_without_prompt(before: App, after: App, key: Key, c: Command)
    requires
        normal_key_outcome(before, after, key, c),
        key == Key::Char('c') || key == Key::Enter,
        before.view_mode == ViewMode::Normal,
        before.selected_spec() matches Some(e) && !e.is_connected && (e.connection_path is Some
            || (e.kind is Wired) || (e.kind matches NetworkKind::Wireless { security, .. } && (
        security@ == "Open"@ || seq_contains(security@, "Enterprise"@)))),
    ensures
        c == (Command::Connect { entry: before.selected_spec()->0, password: None }),
        after.password_modal == before.password_modal,
{
}

proof fn lemma_first_named(s: Seq<NetworkEntry>, name: Seq<char>, i: int, k: int)
    requires
        0 <= i <= k < s.len(),
        s[k].name@ == name,
    ensures
        i <= find_name_from(s, name, i) <= k,
        s[find_name_from(s, name, i)].name@ == name,
        forall|j: int| i <= j < find_name_from(s, name, i) ==> (#[trigger] s[j]).name@ != name,
    decreases k - i,
{
    if s[i].name@ != name {
        lemma_first_named(s, name, i + 1, k);
    }
}

/// A refreshed list keeps the selection on the same network: when the
/// network selected before is in the new list, the network selected after is
/// the first one listed with its name; otherwise the selection keeps its
/// position, brought into the new list's range.
pub proof fn law_refresh_event_keeps_selection(
    before: App,
    after: App,
    list: Vec<NetworkEntry>,
    eff: EventEffect,
)
    requires
        event_outcome(before, after, UiEvent::Networks(Ok(list)), eff),
    ensures
        after.networks@ == list@,
        match before.selected_spec() {
            Some(e) => (exists|k: int|
                0 <= k < list@.len() && (#[trigger] list@[k]).name@ == e.name@) ==> {
                &&& after.selected_spec() matches Some(f) && f.name@ == e.name@
                &&& forall|j: int|
                    0 <= j < after.selected_index ==> (#[trigger] list@[j]).name@ != e.name@
            },
            None => true,
        },
        (before.selected_spec() is None || !(exists|k: int|
            0 <= k < list@.len() && (#[trigger] list@[k]).name@ == before.selected_spec()->0.name@))
            ==> after.selected_index == (if before.selected_index < list@.len() {
            before.selected_index as int
        } else if list@.len() > 0 {
            list@.len() - 1
        } else {
            0
        }),
{
    match before.selected_spec() {
        Some(e) => {
            if exists|k: int| 0 <= k < list@.len() && (#[trigger] list@[k]).name@ == e.name@ {
                let k = choose|k: int| 0 <= k < list@.len() && (#[trigger] list@[k]).name@ == e.name@;
                lemma_first_named(list@, e.name@, 0, k);
            } else {
                crate::app::lemma_find_name_bounds(list@, e.name@, 0);
                if find_name_from(list@, e.name@, 0) < list@.len() {
                    crate::app::lemma_find_name_hit(list@, e.name@, 0);
                }
            }
        },
        None => {},
    }
}

} // verus!
