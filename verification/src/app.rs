//! The state of the user interface and the operations that change it.

use vstd::prelude::*;

verus! {

/// Events that background work hands back to the user interface loop.
#[derive(Debug)]
pub enum UiEvent {
    Status(String),
    Networks(Result<Vec<NetworkEntry>, String>),
    PasswordFetched(Result<String, String>),
    RequestRefresh,
    NeedPassword(NetworkEntry),
}

/// Which screen is shown.
#[derive(Debug, Clone, Copy, PartialEq, Eq, Structural)]
pub enum ViewMode {
    Normal,
    SpeedTest,
}

/// Progress and readings of the simulated speed test. Readings are fixed-point
/// numbers in tenths of a unit (`142` stands for 14.2).
#[derive(Debug)]
pub struct SpeedTestData {
    pub is_running: bool,
    pub ping_tenth_ms: Option<u32>,
    pub download_tenth_mbps: Option<u32>,
    pub upload_tenth_mbps: Option<u32>,
    pub progress_pct: u16,
    pub stage: String,
}

impl Default for SpeedTestData {
    fn default() -> (d: Self)
        ensures
            !d.is_running,
            d.ping_tenth_ms is None,
            d.download_tenth_mbps is None,
            d.upload_tenth_mbps is None,
            d.progress_pct == 0,
            d.stage@ == Seq::<char>::empty(),
    {
        SpeedTestData {
            is_running: false,
            ping_tenth_ms: None,
            download_tenth_mbps: None,
            upload_tenth_mbps: None,
            progress_pct: 0,
            stage: String::new(),
        }
    }
}

/// A wired interface or a Wi-Fi network.
#[derive(Debug)]
pub enum NetworkKind {
    Wired { interface: String, speed: u32 },
    Wireless { ssid: String, bssid: String, signal: u8, security: String },
}

impl NetworkKind {
    /// The security label of a Wi-Fi network; `None` for a wired interface.
    pub fn security(&self) -> (r: Option<&str>)
        ensures
            match self {
                NetworkKind::Wireless { security, .. } => r is Some && r->0@ == security@,
                NetworkKind::Wired { .. } => r is None,
            },
    {
        match self {
            NetworkKind::Wireless { security, .. } => Some(security.as_str()),
            _ => None,
        }
    }
}

/// Clones an optional string.
pub fn clone_opt_string(o: &Option<String>) -> (r: Option<String>)
    ensures
        r == *o,
{
    match o {
        Some(s) => Some(s.clone()),
        None => None,
    }
}

impl Clone for NetworkKind {
    fn clone(&self) -> (r: Self)
        ensures
            r == *self,
    {
        match self {
            NetworkKind::Wired { interface, speed } => NetworkKind::Wired {
                interface: interface.clone(),
                speed: *speed,
            },
            NetworkKind::Wireless { ssid, bssid, signal, security } => NetworkKind::Wireless {
                ssid: ssid.clone(),
                bssid: bssid.clone(),
                signal: *signal,
                security: security.clone(),
            },
        }
    }
}

/// One row of the network list.
#[derive(Debug)]
pub struct NetworkEntry {
    pub name: String,
    pub kind: NetworkKind,
    pub is_connected: bool,
    pub autoconnect: bool,
    pub ip_address: Option<String>,
    pub gateway: Option<String>,
    pub dbus_path: String,
    pub connection_path: Option<String>,
    pub ap_path: Option<String>,
}

impl Clone for NetworkEntry {
    fn clone(&self) -> (r: Self)
        ensures
            r == *self,
    {
        NetworkEntry {
            name: self.name.clone(),
            kind: self.kind.clone(),
            is_connected: self.is_connected,
            autoconnect: self.autoconnect,
            ip_address: clone_opt_string(&self.ip_address),
            gateway: clone_opt_string(&self.gateway),
            dbus_path: self.dbus_path.clone(),
            connection_path: clone_opt_string(&self.connection_path),
            ap_path: clone_opt_string(&self.ap_path),
        }
    }
}

/// What kind of network an entry is, with its text as characters.
pub enum NetworkKindView {
    Wired { interface: Seq<char>, speed: u32 },
    Wireless { ssid: Seq<char>, bssid: Seq<char>, signal: u8, security: Seq<char> },
}

/// A network entry with its text as characters.
pub struct NetworkEntryView {
    pub name: Seq<char>,
    pub kind: NetworkKindView,
    pub is_connected: bool,
    pub autoconnect: bool,
    pub ip_address: Option<Seq<char>>,
    pub gateway: Option<Seq<char>>,
    pub dbus_path: Seq<char>,
    pub connection_path: Option<Seq<char>>,
    pub ap_path: Option<Seq<char>>,
}

impl View for NetworkKind {
    type V = NetworkKindView;

    open spec fn view(&self) -> NetworkKindView {
        match self {
            NetworkKind::Wired { interface, speed } => NetworkKindView::Wired {
                interface: interface@,
                speed: *speed,
            },
            NetworkKind::Wireless { ssid, bssid, signal, security } => NetworkKindView::Wireless {
                ssid: ssid@,
                bssid: bssid@,
                signal: *signal,
                security: security@,
            },
        }
    }
}

impl View for NetworkEntry {
    type V = NetworkEntryView;

    open spec fn view(&self) -> NetworkEntryView {
        NetworkEntryView {
            name: self.name@,
            kind: self.kind@,
            is_connected: self.is_connected,
            autoconnect: self.autoconnect,
            ip_address: crate::netlist::opt_view(self.ip_address),
            gateway: crate::netlist::opt_view(self.gateway),
            dbus_path: self.dbus_path@,
            connection_path: crate::netlist::opt_view(self.connection_path),
            ap_path: crate::netlist::opt_view(self.ap_path),
        }
    }
}

/// The views of a list of entries.
pub open spec fn views(s: Seq<NetworkEntry>) -> Seq<NetworkEntryView> {
    s.map_values(|e: NetworkEntry| e@)
}

/// Copies a list of networks.
pub fn clone_entries(v: &Vec<NetworkEntry>) -> (r: Vec<NetworkEntry>)
    ensures
        r@ == v@,
{
    let mut r: Vec<NetworkEntry> = Vec::new();
    let mut i: usize = 0;
    while i < v.len()
        invariant
            i <= v@.len(),
            r@ == v@.take(i as int),
        decreases v.len() - i,
    {
        r.push(v[i].clone());
        assert(v@.take(i + 1) =~= v@.take(i as int).push(v@[i as int]));
        i = i + 1;
    }
    assert(v@.take(v@.len() as int) =~= v@);
    r
}

impl Clone for UiEvent {
    fn clone(&self) -> (r: Self)
        ensures
            match *self {
                UiEvent::Networks(Ok(a)) => (r matches UiEvent::Networks(Ok(b)) && b@ == a@),
                _ => r == *self,
            },
    {
        match self {
            UiEvent::Status(m) => UiEvent::Status(m.clone()),
            UiEvent::Networks(Ok(v)) => UiEvent::Networks(Ok(clone_entries(v))),
            UiEvent::Networks(Err(e)) => UiEvent::Networks(Err(e.clone())),
            UiEvent::PasswordFetched(Ok(p)) => UiEvent::PasswordFetched(Ok(p.clone())),
            UiEvent::PasswordFetched(Err(e)) => UiEvent::PasswordFetched(Err(e.clone())),
            UiEvent::RequestRefresh => UiEvent::RequestRefresh,
            UiEvent::NeedPassword(e) => UiEvent::NeedPassword(e.clone()),
        }
    }
}

impl Clone for SpeedTestData {
    fn clone(&self) -> (r: Self)
        ensures
            r == *self,
    {
        SpeedTestData {
            is_running: self.is_running,
            ping_tenth_ms: self.ping_tenth_ms,
            download_tenth_mbps: self.download_tenth_mbps,
            upload_tenth_mbps: self.upload_tenth_mbps,
            progress_pct: self.progress_pct,
            stage: self.stage.clone(),
        }
    }
}

/// The dialog that asks for a Wi-Fi password.
#[derive(Debug)]
pub struct PasswordModalState {
    pub open: bool,
    pub entry: Option<NetworkEntry>,
    pub input: String,
    pub error: Option<String>,
}

impl PasswordModalState {
    /// The dialog is closed and holds nothing.
    pub open spec fn is_cleared(&self) -> bool {
        &&& !self.open
        &&& self.entry is None
        &&& self.input@ == Seq::<char>::empty()
        &&& self.error is None
    }
}

impl Default for PasswordModalState {
    fn default() -> (d: Self)
        ensures
            d.is_cleared(),
    {
        PasswordModalState { open: false, entry: None, input: String::new(), error: None }
    }
}

/// Index `i` brought into `0..len` (0 for an empty list, the last index when past the end).
pub open spec fn clamp_index(i: int, len: int) -> int {
    if len <= 0 {
        0
    } else if i >= len {
        len - 1
    } else {
        i
    }
}

/// The selection after moving down: the next row, wrapping to the first.
pub open spec fn next_index(i: int, len: int) -> int {
    if len <= 0 {
        i
    } else if i + 1 < len {
        i + 1
    } else {
        0
    }
}

/// The selection after moving up: the previous row, wrapping to the last.
pub open spec fn prev_index(i: int, len: int) -> int {
    if len <= 0 {
        i
    } else if i > 0 {
        i - 1
    } else {
        len - 1
    }
}

/// Index of the first entry at or after `i` whose name is `name`
/// (the length when there is none).
pub open spec fn find_name_from(s: Seq<NetworkEntry>, name: Seq<char>, i: int) -> int
    decreases s.len() - i,
{
    if i < 0 || i >= s.len() {
        s.len() as int
    } else if s[i].name@ == name {
        i
    } else {
        find_name_from(s, name, i + 1)
    }
}

/// Index of the first entry named `name` (the length when there is none).
pub open spec fn find_name(s: Seq<NetworkEntry>, name: Seq<char>) -> int {
    find_name_from(s, name, 0)
}

/// Some entry of `s` is connected.
pub open spec fn any_connected(s: Seq<NetworkEntry>) -> bool {
    exists|i: int| 0 <= i < s.len() && #[trigger] s[i].is_connected
}

/// Progress of the speed test after one tick, from `pct`.
pub open spec fn tick_progress(pct: int) -> int {
    if pct + 2 < 100 {
        pct + 2
    } else {
        100
    }
}

/// The animation counter after one tick (wrapping).
pub open spec fn tick_frame(frame: usize) -> usize {
    if frame == usize::MAX {
        0
    } else {
        (frame + 1) as usize
    }
}

pub(crate) proof fn lemma_find_name_bounds(s: Seq<NetworkEntry>, name: Seq<char>, i: int)
    requires
        0 <= i <= s.len(),
    ensures
        i <= find_name_from(s, name, i) <= s.len(),
    decreases s.len() - i,
{
    if i < s.len() && s[i].name@ != name {
        lemma_find_name_bounds(s, name, i + 1);
    }
}

/// Position of the first entry named `name` (the length when there is none).
pub fn find_name_index(v: &Vec<NetworkEntry>, name: &String) -> (r: usize)
    ensures
        r == find_name(v@, name@),
        r <= v@.len(),
{
    let n = v.len();
    let mut i: usize = 0;
    while i < n
        invariant
            n == v@.len(),
            i <= n,
            find_name_from(v@, name@, i as int) == find_name(v@, name@),
        decreases n - i,
    {
        if v[i].name == *name {
            return i;
        }
        i = i + 1;
    }
    i
}

/// The whole application state.
pub struct App {
    pub networks: Vec<NetworkEntry>,
    pub selected_index: usize,
    pub show_qr: bool,
    pub qr_password: Option<String>,
    pub should_quit: bool,
    pub status_message: String,
    pub view_mode: ViewMode,
    pub speed_test: SpeedTestData,
    pub anim_frame: usize,
    pub password_modal: PasswordModalState,
}

impl App {
    /// The selection is 0 in an empty list and a valid index otherwise.
    pub open spec fn selection_valid(&self) -> bool {
        if self.networks@.len() == 0 {
            self.selected_index == 0
        } else {
            self.selected_index < self.networks@.len()
        }
    }

    /// The entry under the selection, if the selection is in range.
    pub open spec fn selected_spec(&self) -> Option<NetworkEntry> {
        if self.selected_index < self.networks@.len() {
            Some(self.networks@[self.selected_index as int])
        } else {
            None
        }
    }

    /// The selection after the list is replaced by `networks`: the first
    /// network with the name of the selected one if there is one, otherwise
    /// the same index; brought into range.
    pub open spec fn reselected_index(&self, networks: Seq<NetworkEntry>) -> int {
        clamp_index(
            match self.selected_spec() {
                Some(e) => if find_name(networks, e.name@) < networks.len() {
                    find_name(networks, e.name@)
                } else {
                    self.selected_index as int
                },
                None => self.selected_index as int,
            },
            networks.len() as int,
        )
    }

    /// A fresh state: no networks, normal view, status "Ready".
    pub fn new() -> (app: Self)
        ensures
            app.networks@.len() == 0,
            app.selected_index == 0,
            !app.show_qr,
            app.qr_password is None,
            !app.should_quit,
            app.status_message@ == "Ready"@,
            app.view_mode == ViewMode::Normal,
            !app.speed_test.is_running,
            app.speed_test.progress_pct == 0,
            app.speed_test.ping_tenth_ms is None,
            app.speed_test.download_tenth_mbps is None,
            app.speed_test.upload_tenth_mbps is None,
            app.speed_test.stage@ == Seq::<char>::empty(),
            app.anim_frame == 0,
            app.password_modal.is_cleared(),
            app.selection_valid(),
    {
        App {
            networks: Vec::new(),
            selected_index: 0,
            show_qr: false,
            qr_password: None,
            should_quit: false,
            status_message: String::from_str("Ready"),
            view_mode: ViewMode::Normal,
            speed_test: SpeedTestData::default(),
            anim_frame: 0,
            password_modal: PasswordModalState::default(),
        }
    }

    /// Replaces the status line.
    pub fn set_status(&mut self, message: String)
        ensures
            final(self).status_message@ == message@,
            final(self).networks@ == old(self).networks@,
            final(self).selected_index == old(self).selected_index,
            final(self).show_qr == old(self).show_qr,
            final(self).qr_password == old(self).qr_password,
            final(self).should_quit == old(self).should_quit,
            final(self).view_mode == old(self).view_mode,
            final(self).speed_test == old(self).speed_test,
            final(self).anim_frame == old(self).anim_frame,
            final(self).password_modal == old(self).password_modal,
    {
        self.status_message = message;
    }

    /// The selected entry, if the selection is in range.
    pub fn selected_network(&self) -> (r: Option<&NetworkEntry>)
        ensures
            match self.selected_spec() {
                Some(e) => r is Some && *r->0 == e,
                None => r is None,
            },
    {
        if self.selected_index < self.networks.len() {
            Some(&self.networks[self.selected_index])
        } else {
            None
        }
    }

    /// A copy of the selected entry, if the selection is in range.
    pub fn selected_network_cloned(&self) -> (r: Option<NetworkEntry>)
        ensures
            r == self.selected_spec(),
    {
        match self.selected_network() {
            Some(e) => Some(e.clone()),
            None => None,
        }
    }

    /// Brings the selection back into range.
    pub fn clamp_selection(&mut self)
        ensures
            final(self).selected_index == clamp_index(
                old(self).selected_index as int,
                old(self).networks@.len() as int,
            ),
            final(self).selection_valid(),
            final(self).networks@ == old(self).networks@,
            final(self).show_qr == old(self).show_qr,
            final(self).qr_password == old(self).qr_password,
            final(self).should_quit == old(self).should_quit,
            final(self).status_message == old(self).status_message,
            final(self).view_mode == old(self).view_mode,
            final(self).speed_test == old(self).speed_test,
            final(self).anim_frame == old(self).anim_frame,
            final(self).password_modal == old(self).password_modal,
    {
        if self.networks.len() == 0 {
            self.selected_index = 0;
        } else if self.selected_index >= self.networks.len() {
            self.selected_index = self.networks.len() - 1;
        }
    }

    /// Replaces the list of networks, keeping the selection on the network of
    /// the same name when it is still listed.
    pub fn set_networks(&mut self, networks: Vec<NetworkEntry>)
        ensures
            final(self).networks@ == networks@,
            final(self).selected_index == old(self).reselected_index(networks@),
            final(self).selection_valid(),
            final(self).show_qr == old(self).show_qr,
            final(self).qr_password == old(self).qr_password,
            final(self).should_quit == old(self).should_quit,
            final(self).status_message == old(self).status_message,
            final(self).view_mode == old(self).view_mode,
            final(self).speed_test == old(self).speed_test,
            final(self).anim_frame == old(self).anim_frame,
            final(self).password_modal == old(self).password_modal,
    {
        let previous: Option<String> = match self.selected_network() {
            Some(n) => Some(n.name.clone()),
            None => None,
        };
        self.networks = networks;
        if let Some(name) = previous {
            let i = find_name_index(&self.networks, &name);
            if i < self.networks.len() {
                self.selected_index = i;
            }
        }
        self.clamp_selection();
    }

    /// Whether some listed network is connected.
    pub fn is_any_connected(&self) -> (b: bool)
        ensures
            b == any_connected(self.networks@),
    {
        let n = self.networks.len();
        let mut i: usize = 0;
        while i < n
            invariant
                n == self.networks@.len(),
                i <= n,
                forall|k: int| 0 <= k < i ==> !(#[trigger] self.networks@[k]).is_connected,
            decreases n - i,
        {
            if self.networks[i].is_connected {
                return true;
            }
            i = i + 1;
        }
        false
    }

    /// Restarts the speed test from zero.
    pub fn start_speed_test(&mut self)
        ensures
            final(self).speed_test.is_running,
            final(self).speed_test.ping_tenth_ms is None,
            final(self).speed_test.download_tenth_mbps is None,
            final(self).speed_test.upload_tenth_mbps is None,
            final(self).speed_test.progress_pct == 0,
            final(self).speed_test.stage@ == "Measuring latency..."@,
            final(self).networks@ == old(self).networks@,
            final(self).selected_index == old(self).selected_index,
            final(self).show_qr == old(self).show_qr,
            final(self).qr_password == old(self).qr_password,
            final(self).should_quit == old(self).should_quit,
            final(self).status_message == old(self).status_message,
            final(self).view_mode == old(self).view_mode,
            final(self).anim_frame == old(self).anim_frame,
            final(self).password_modal == old(self).password_modal,
    {
        self.speed_test = SpeedTestData {
            is_running: true,
            ping_tenth_ms: None,
            download_tenth_mbps: None,
            upload_tenth_mbps: None,
            progress_pct: 0,
            stage: String::from_str("Measuring latency..."),
        };
    }

    /// Switches between the network list and the speed test. The speed test
    /// opens only while some network is connected, and starts afresh.
    pub fn toggle_speed_test(&mut self)
        ensures
            old(self).view_mode == ViewMode::SpeedTest ==> {
                &&& final(self).view_mode == ViewMode::Normal
                &&& final(self).status_message@ == "Returned to networks"@
                &&& final(self).speed_test == old(self).speed_test
            },
            old(self).view_mode == ViewMode::Normal && !any_connected(old(self).networks@) ==> {
                &&& final(self).view_mode == ViewMode::Normal
                &&& final(self).status_message@ == "network not connected"@
                &&& final(self).speed_test == old(self).speed_test
            },
            old(self).view_mode == ViewMode::Normal && any_connected(old(self).networks@) ==> {
                &&& final(self).view_mode == ViewMode::SpeedTest
                &&& final(self).status_message == old(self).status_message
                &&& final(self).speed_test.is_running
                &&& final(self).speed_test.ping_tenth_ms is None
                &&& final(self).speed_test.download_tenth_mbps is None
                &&& final(self).speed_test.upload_tenth_mbps is None
                &&& final(self).speed_test.progress_pct == 0
                &&& final(self).speed_test.stage@ == "Measuring latency..."@
            },
            final(self).networks@ == old(self).networks@,
            final(self).selected_index == old(self).selected_index,
            final(self).show_qr == old(self).show_qr,
            final(self).qr_password == old(self).qr_password,
            final(self).should_quit == old(self).should_quit,
            final(self).anim_frame == old(self).anim_frame,
            final(self).password_modal == old(self).password_modal,
    {
        match self.view_mode {
            ViewMode::SpeedTest => {
                self.view_mode = ViewMode::Normal;
                self.status_message = String::from_str("Returned to networks");
            },
            ViewMode::Normal => {
                if !self.is_any_connected() {
                    self.status_message = String::from_str("network not connected");
                    return ;
                }
                self.view_mode = ViewMode::SpeedTest;
                self.start_speed_test();
            },
        }
    }

    /// Moves the selection down, wrapping to the top; forgets a loaded QR password.
    pub fn next_network(&mut self)
        ensures
            final(self).selected_index == next_index(
                old(self).selected_index as int,
                old(self).networks@.len() as int,
            ),
            old(self).networks@.len() > 0 ==> final(self).qr_password is None,
            old(self).networks@.len() == 0 ==> final(self).qr_password == old(self).qr_password,
            old(self).selection_valid() ==> final(self).selection_valid(),
            final(self).networks@ == old(self).networks@,
            final(self).show_qr == old(self).show_qr,
            final(self).should_quit == old(self).should_quit,
            final(self).status_message == old(self).status_message,
            final(self).view_mode == old(self).view_mode,
            final(self).speed_test == old(self).speed_test,
            final(self).anim_frame == old(self).anim_frame,
            final(self).password_modal == old(self).password_modal,
    {
        let n = self.networks.len();
        if n > 0 {
            if self.selected_index < n - 1 {
                self.selected_index = self.selected_index + 1;
            } else {
                self.selected_index = 0;
            }
            self.qr_password = None;
        }
    }

    /// Moves the selection up, wrapping to the bottom; forgets a loaded QR password.
    pub fn previous_network(&mut self)
        ensures
            final(self).selected_index == prev_index(
                old(self).selected_index as int,
                old(self).networks@.len() as int,
            ),
            old(self).networks@.len() > 0 ==> final(self).qr_password is None,
            old(self).networks@.len() == 0 ==> final(self).qr_password == old(self).qr_password,
            old(self).selection_valid() ==> final(self).selection_valid(),
            final(self).networks@ == old(self).networks@,
            final(self).show_qr == old(self).show_qr,
            final(self).should_quit == old(self).should_quit,
            final(self).status_message == old(self).status_message,
            final(self).view_mode == old(self).view_mode,
            final(self).speed_test == old(self).speed_test,
            final(self).anim_frame == old(self).anim_frame,
            final(self).password_modal == old(self).password_modal,
    {
        let n = self.networks.len();
        if n > 0 {
            if self.selected_index > 0 {
                self.selected_index = self.selected_index - 1;
            } else {
                self.selected_index = n - 1;
            }
            self.qr_password = None;
        }
    }

    /// Shows or hides the QR pane; hiding it forgets the loaded password.
    pub fn toggle_qr(&mut self)
        ensures
            (final(self).show_qr, final(self).qr_password) == toggled_qr(
                old(self).show_qr,
                old(self).qr_password,
            ),
            final(self).networks@ == old(self).networks@,
            final(self).selected_index == old(self).selected_index,
            final(self).should_quit == old(self).should_quit,
            final(self).status_message == old(self).status_message,
            final(self).view_mode == old(self).view_mode,
            final(self).speed_test == old(self).speed_test,
            final(self).anim_frame == old(self).anim_frame,
            final(self).password_modal == old(self).password_modal,
    {
        self.show_qr = !self.show_qr;
        if !self.show_qr {
            self.qr_password = None;
        }
    }

    /// Opens the password dialog for `entry`, with an empty input.
    pub fn open_password_modal(&mut self, entry: NetworkEntry)
        ensures
            final(self).status_message@ == "Password required for "@ + entry.name@,
            final(self).password_modal.open,
            final(self).password_modal.entry == Some(entry),
            final(self).password_modal.input@ == Seq::<char>::empty(),
            final(self).password_modal.error is None,
            final(self).networks@ == old(self).networks@,
            final(self).selected_index == old(self).selected_index,
            final(self).show_qr == old(self).show_qr,
            final(self).qr_password == old(self).qr_password,
            final(self).should_quit == old(self).should_quit,
            final(self).view_mode == old(self).view_mode,
            final(self).speed_test == old(self).speed_test,
            final(self).anim_frame == old(self).anim_frame,
    {
        self.status_message = crate::text::join2("Password required for ", entry.name.as_str());
        self.password_modal.open = true;
        self.password_modal.entry = Some(entry);
        self.password_modal.input = String::new();
        self.password_modal.error = None;
    }

    /// Closes the password dialog and clears it.
    pub fn close_password_modal(&mut self)
        ensures
            final(self).password_modal.is_cleared(),
            final(self).networks@ == old(self).networks@,
            final(self).selected_index == old(self).selected_index,
            final(self).show_qr == old(self).show_qr,
            final(self).qr_password == old(self).qr_password,
            final(self).should_quit == old(self).should_quit,
            final(self).status_message == old(self).status_message,
            final(self).view_mode == old(self).view_mode,
            final(self).speed_test == old(self).speed_test,
            final(self).anim_frame == old(self).anim_frame,
    {
        self.password_modal.open = false;
        self.password_modal.entry = None;
        self.password_modal.input = String::new();
        self.password_modal.error = None;
    }

    /// Advances the animation and, while the speed test runs, its progress:
    /// two points per tick up to 100, then the test completes.
    pub fn on_tick(&mut self)
        ensures
            final(self).anim_frame == tick_frame(old(self).anim_frame),
            ({
                let st = old(self).speed_test;
                let st2 = final(self).speed_test;
                let f = final(self).anim_frame;
                if old(self).view_mode == ViewMode::SpeedTest && st.is_running {
                    if st.progress_pct < 100 {
                        &&& st2.is_running
                        &&& st2.progress_pct == tick_progress(st.progress_pct as int)
                        &&& if st2.progress_pct <= 25 {
                            &&& st2.stage@ == "Measuring ping & jitter..."@
                            &&& st2.ping_tenth_ms == Some((142 + (f % 5) * 4) as u32)
                            &&& st2.download_tenth_mbps == st.download_tenth_mbps
                            &&& st2.upload_tenth_mbps == st.upload_tenth_mbps
                        } else if st2.progress_pct <= 65 {
                            &&& st2.stage@ == "Testing Download speed..."@
                            &&& st2.ping_tenth_ms == st.ping_tenth_ms
                            &&& st2.download_tenth_mbps == Some((1846 + (f % 7) * 18) as u32)
                            &&& st2.upload_tenth_mbps == st.upload_tenth_mbps
                        } else {
                            &&& st2.stage@ == "Testing Upload speed..."@
                            &&& st2.ping_tenth_ms == st.ping_tenth_ms
                            &&& st2.download_tenth_mbps == st.download_tenth_mbps
                            &&& st2.upload_tenth_mbps == Some((421 + (f % 4) * 9) as u32)
                        }
                    } else {
                        &&& !st2.is_running
                        &&& st2.stage@ == "Complete"@
                        &&& st2.progress_pct == st.progress_pct
                        &&& st2.ping_tenth_ms == st.ping_tenth_ms
                        &&& st2.download_tenth_mbps == st.download_tenth_mbps
                        &&& st2.upload_tenth_mbps == st.upload_tenth_mbps
                    }
                } else {
                    st2 == st
                }
            }),
            final(self).networks@ == old(self).networks@,
            final(self).selected_index == old(self).selected_index,
            final(self).show_qr == old(self).show_qr,
            final(self).qr_password == old(self).qr_password,
            final(self).should_quit == old(self).should_quit,
            final(self).status_message == old(self).status_message,
            final(self).view_mode == old(self).view_mode,
            final(self).password_modal == old(self).password_modal,
    {
        if self.anim_frame == usize::MAX {
            self.anim_frame = 0;
        } else {
            self.anim_frame = self.anim_frame + 1;
        }
        if self.view_mode == ViewMode::SpeedTest && self.speed_test.is_running {
            if self.speed_test.progress_pct < 100 {
                let p = self.speed_test.progress_pct + 2;
                self.speed_test.progress_pct = if p < 100 {
                    p
                } else {
                    100
                };
                let f = self.anim_frame;
                if self.speed_test.progress_pct <= 25 {
                    self.speed_test.stage = String::from_str("Measuring ping & jitter...");
                    self.speed_test.ping_tenth_ms = Some(142 + ((f % 5) as u32) * 4);
                } else if self.speed_test.progress_pct <= 65 {
                    self.speed_test.stage = String::from_str("Testing Download speed...");
                    self.speed_test.download_tenth_mbps = Some(1846 + ((f % 7) as u32) * 18);
                } else {
                    self.speed_test.stage = String::from_str("Testing Upload speed...");
                    self.speed_test.upload_tenth_mbps = Some(421 + ((f % 4) as u32) * 9);
                }
            } else {
                self.speed_test.is_running = false;
                self.speed_test.stage = String::from_str("Complete");
            }
        }
    }
}

/// Moving down then up (or up then down) returns to the same network.
pub proof fn law_next_then_previous(i: int, len: int)
    requires
        0 <= i < len,
    ensures
        prev_index(next_index(i, len), len) == i,
        next_index(prev_index(i, len), len) == i,
{
}

/// Moving never leaves the list: from a valid selection, the next and the
/// previous selections are valid too.
pub proof fn law_moves_stay_in_range(i: int, len: int)
    requires
        0 <= i < len,
    ensures
        0 <= next_index(i, len) < len,
        0 <= prev_index(i, len) < len,
{
}

/// When the previously selected network is still listed after a refresh, the
/// selection lands on it: `set_networks` picks its first occurrence, which
/// clamping leaves alone.
pub proof fn law_refresh_keeps_selected_network(networks: Seq<NetworkEntry>, name: Seq<char>)
    requires
        find_name(networks, name) < networks.len(),
    ensures
        clamp_index(find_name(networks, name), networks.len() as int) == find_name(
            networks,
            name,
        ),
        networks[clamp_index(find_name(networks, name), networks.len() as int)].name@ == name,
{
    lemma_find_name_bounds(networks, name, 0);
    lemma_find_name_hit(networks, name, 0);
}

pub(crate) proof fn lemma_find_name_hit(s: Seq<NetworkEntry>, name: Seq<char>, i: int)
    requires
        0 <= i <= s.len(),
        find_name_from(s, name, i) < s.len(),
    ensures
        s[find_name_from(s, name, i)].name@ == name,
    decreases s.len() - i,
{
    if i < s.len() && s[i].name@ != name {
        lemma_find_name_hit(s, name, i + 1);
    }
}

/// The speed test advances on every tick until it reaches 100 and never goes
/// past it, so it completes after at most fifty ticks.
pub proof fn law_progress_advances_to_completion(pct: int)
    requires
        0 <= pct <= 100,
    ensures
        pct <= tick_progress(pct) <= 100,
        pct < 100 ==> tick_progress(pct) >= pct + 1,
        pct == 100 ==> tick_progress(pct) == 100,
{
}

/// The QR pane after a toggle: shown or hidden, and the loaded password kept
/// only while it is shown.
pub open spec fn toggled_qr(show: bool, password: Option<String>) -> (bool, Option<String>) {
    (!show, if !show {
        password
    } else {
        None
    })
}

/// Toggling the QR pane twice restores its visibility, and a password loaded
/// for it is forgotten (the pane was hidden in between).
pub proof fn law_toggle_qr_twice(show: bool, password: Option<String>)
    ensures
        toggled_qr(toggled_qr(show, password).0, toggled_qr(show, password).1).0 == show,
        toggled_qr(toggled_qr(show, password).0, toggled_qr(show, password).1).1 is None,
{
}

} // verus!
