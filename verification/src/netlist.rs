//! Building the network list: the order in which networks are shown, the
//! merging of access points that share an SSID, and the table of saved
//! connection profiles consulted for each network.

use vstd::prelude::*;
use crate::app::{
    NetworkEntry, NetworkEntryView, NetworkKind, NetworkKindView, clone_opt_string, find_name_from,
    views,
};
use crate::text::{chars_of, lowercase, to_lowercase};

verus! {

// ---------------------------------------------------------------------------
// Order of the list
// ---------------------------------------------------------------------------

/// Lexicographic order of character sequences by code point; this is the
/// order `str`'s `Ord` gives, since UTF-8 preserves code point order.
pub open spec fn lex_lt(a: Seq<char>, b: Seq<char>) -> bool
    decreases a.len(),
{
    if a.len() == 0 {
        b.len() > 0
    } else if b.len() == 0 {
        false
    } else if a[0] != b[0] {
        (a[0] as u32) < (b[0] as u32)
    } else {
        lex_lt(a.drop_first(), b.drop_first())
    }
}

/// Whether `a` comes strictly before `b` in lexicographic order.
pub fn lex_less(a: &[char], b: &[char]) -> (r: bool)
    ensures
        r == lex_lt(a@, b@),
{
    let mut i: usize = 0;
    assert(a@.skip(0) =~= a@);
    assert(b@.skip(0) =~= b@);
    while i < a.len() && i < b.len()
        invariant
            i <= a@.len(),
            i <= b@.len(),
            lex_lt(a@, b@) == lex_lt(a@.skip(i as int), b@.skip(i as int)),
        decreases a.len() - i,
    {
        if a[i] != b[i] {
            return (a[i] as u32) < (b[i] as u32);
        }
        assert(a@.skip(i as int).drop_first() =~= a@.skip(i + 1));
        assert(b@.skip(i as int).drop_first() =~= b@.skip(i + 1));
        i = i + 1;
    }
    a.len() < b.len()
}

/// `a` is listed before `b`: connected networks first, then by lower-cased name.
pub open spec fn entry_before(a: NetworkEntryView, b: NetworkEntryView) -> bool {
    (a.is_connected && !b.is_connected) || (a.is_connected == b.is_connected && lex_lt(
        lowercase(a.name),
        lowercase(b.name),
    ))
}

/// First position at or after `j` whose entry `e` goes strictly before.
pub open spec fn insert_pos_from(s: Seq<NetworkEntryView>, e: NetworkEntryView, j: int) -> int
    decreases s.len() - j,
{
    if j < 0 || j >= s.len() {
        s.len() as int
    } else if entry_before(e, s[j]) {
        j
    } else {
        insert_pos_from(s, e, j + 1)
    }
}

/// `e` placed into `s` after every entry it does not go before.
pub open spec fn insert_sorted(s: Seq<NetworkEntryView>, e: NetworkEntryView) -> Seq<
    NetworkEntryView,
> {
    s.insert(insert_pos_from(s, e, 0), e)
}

/// The list in display order (a stable insertion sort by `entry_before`).
pub open spec fn sorted_list(s: Seq<NetworkEntryView>) -> Seq<NetworkEntryView>
    decreases s.len(),
{
    if s.len() == 0 {
        s
    } else {
        insert_sorted(sorted_list(s.drop_last()), s.last())
    }
}

/// No entry comes strictly before an earlier one.
pub open spec fn is_sorted(s: Seq<NetworkEntryView>) -> bool {
    forall|i: int, j: int| 0 <= i < j < s.len() ==> !entry_before(#[trigger] s[j], #[trigger] s[i])
}

proof fn lemma_insert_pos_bounds(s: Seq<NetworkEntryView>, e: NetworkEntryView, j: int)
    requires
        0 <= j <= s.len(),
    ensures
        j <= insert_pos_from(s, e, j) <= s.len(),
        forall|k: int| j <= k < insert_pos_from(s, e, j) ==> !entry_before(e, #[trigger] s[k]),
        insert_pos_from(s, e, j) < s.len() ==> entry_before(e, s[insert_pos_from(s, e, j)]),
    decreases s.len() - j,
{
    if j < s.len() && !entry_before(e, s[j]) {
        lemma_insert_pos_bounds(s, e, j + 1);
    }
}

fn insert_position(
    out: &Vec<NetworkEntry>,
    keys: &Vec<Vec<char>>,
    e: &NetworkEntry,
    key: &Vec<char>,
) -> (j: usize)
    requires
        keys@.len() == out@.len(),
        forall|k: int| 0 <= k < keys@.len() ==> (#[trigger] keys@[k])@ == lowercase(out@[k].name@),
        key@ == lowercase(e.name@),
    ensures
        j == insert_pos_from(views(out@), e@, 0),
{
    let m = out.len();
    let mut j: usize = 0;
    while j < m
        invariant
            m == out@.len(),
            j <= m,
            keys@.len() == out@.len(),
            forall|k: int| 0 <= k < keys@.len() ==> (#[trigger] keys@[k])@ == lowercase(out@[k].name@),
            key@ == lowercase(e.name@),
            insert_pos_from(views(out@), e@, j as int) == insert_pos_from(views(out@), e@, 0),
        decreases m - j,
    {
        let o_conn = out[j].is_connected;
        let before = (e.is_connected && !o_conn) || (e.is_connected == o_conn && lex_less(
            key.as_slice(),
            keys[j].as_slice(),
        ));
        assert(views(out@)[j as int] == out@[j as int]@);
        assert(before == entry_before(e@, views(out@)[j as int]));
        if before {
            return j;
        }
        j = j + 1;
    }
    j
}

proof fn lemma_views_insert(s: Seq<NetworkEntry>, j: int, e: NetworkEntry)
    requires
        0 <= j <= s.len(),
    ensures
        views(s.insert(j, e)) == views(s).insert(j, e@),
{
    s.insert_ensures(j, e);
    assert(views(s.insert(j, e)) =~= views(s).insert(j, e@));
}

proof fn lemma_views_take_step(s: Seq<NetworkEntry>, i: int)
    requires
        0 <= i < s.len(),
    ensures
        views(s.take(i + 1)).drop_last() == views(s.take(i)),
        views(s.take(i + 1)).last() == s[i]@,
{
    assert(views(s.take(i + 1)).drop_last() =~= views(s.take(i)));
}

/// Puts the networks in display order: connected ones first, then by name
/// compared in lower case; networks that compare equal keep their order.
#[verifier::spinoff_prover]
pub fn sort_networks(entries: Vec<NetworkEntry>) -> (r: Vec<NetworkEntry>)
    ensures
        views(r@) == sorted_list(views(entries@)),
{
    let n = entries.len();
    let mut out: Vec<NetworkEntry> = Vec::new();
    let mut keys: Vec<Vec<char>> = Vec::new();
    let mut i: usize = 0;
    assert(views(out@) =~= sorted_list(views(entries@.take(0))));
    while i < n
        invariant
            n == entries@.len(),
            i <= n,
            views(out@) == sorted_list(views(entries@.take(i as int))),
            keys@.len() == out@.len(),
            forall|k: int| 0 <= k < keys@.len() ==> (#[trigger] keys@[k])@ == lowercase(out@[k].name@),
        decreases n - i,
    {
        let e = entries[i].clone();
        let lower = to_lowercase(e.name.as_str());
        let key = chars_of(lower.as_str());
        let j = insert_position(&out, &keys, &e, &key);
        proof {
            lemma_insert_pos_bounds(views(out@), e@, 0);
            lemma_views_take_step(entries@, i as int);
        }
        let ghost old_out = out@;
        let ghost old_keys = keys@;
        out.insert(j, e);
        keys.insert(j, key);
        proof {
            lemma_views_insert(old_out, j as int, e);
            assert forall|k: int| 0 <= k < keys@.len() implies (#[trigger] keys@[k])@ == lowercase(
                out@[k].name@,
            ) by {
                if k < j {
                    assert(keys@[k] == old_keys[k]);
                } else if k > j {
                    assert(keys@[k] == old_keys[k - 1]);
                }
            }
        }
        i = i + 1;
    }
    assert(entries@.take(n as int) =~= entries@);
    out
}

proof fn lemma_lex_asymmetric(a: Seq<char>, b: Seq<char>)
    ensures
        lex_lt(a, b) ==> !lex_lt(b, a),
    decreases a.len(),
{
    if a.len() > 0 && b.len() > 0 && a[0] == b[0] {
        lemma_lex_asymmetric(a.drop_first(), b.drop_first());
    }
}

proof fn lemma_lex_transitive(a: Seq<char>, b: Seq<char>, c: Seq<char>)
    ensures
        lex_lt(a, b) && lex_lt(b, c) ==> lex_lt(a, c),
    decreases a.len(),
{
    if a.len() > 0 && b.len() > 0 && c.len() > 0 && a[0] == b[0] && b[0] == c[0] {
        lemma_lex_transitive(a.drop_first(), b.drop_first(), c.drop_first());
    }
}

proof fn lemma_before_asymmetric(a: NetworkEntryView, b: NetworkEntryView)
    ensures
        entry_before(a, b) ==> !entry_before(b, a),
{
    lemma_lex_asymmetric(lowercase(a.name), lowercase(b.name));
}

proof fn lemma_before_transitive(a: NetworkEntryView, b: NetworkEntryView, c: NetworkEntryView)
    ensures
        entry_before(a, b) && entry_before(b, c) ==> entry_before(a, c),
{
    lemma_lex_transitive(lowercase(a.name), lowercase(b.name), lowercase(c.name));
}

proof fn lemma_insert_keeps_sorted(s: Seq<NetworkEntryView>, e: NetworkEntryView)
    requires
        is_sorted(s),
    ensures
        is_sorted(insert_sorted(s, e)),
{
    let p = insert_pos_from(s, e, 0);
    lemma_insert_pos_bounds(s, e, 0);
    s.insert_ensures(p, e);
    let r = insert_sorted(s, e);
    assert forall|i: int, j: int| 0 <= i < j < r.len() implies !entry_before(
        #[trigger] r[j],
        #[trigger] r[i],
    ) by {
        if j < p {
            assert(r[i] == s[i] && r[j] == s[j]);
        } else if j == p {
            assert(r[i] == s[i]);
        } else if i == p {
            assert(r[j] == s[j - 1]);
            if entry_before(s[j - 1], e) {
                lemma_before_asymmetric(e, s[p]);
                lemma_before_transitive(s[j - 1], e, s[p]);
            }
        } else if i < p {
            assert(r[i] == s[i] && r[j] == s[j - 1]);
        } else {
            assert(r[i] == s[i - 1] && r[j] == s[j - 1]);
        }
    }
}

/// The display order is sorted: no network is shown after one it should
/// come before.
pub proof fn law_sorted_list_is_sorted(s: Seq<NetworkEntryView>)
    ensures
        is_sorted(sorted_list(s)),
    decreases s.len(),
{
    if s.len() > 0 {
        law_sorted_list_is_sorted(s.drop_last());
        lemma_insert_keeps_sorted(sorted_list(s.drop_last()), s.last());
    }
}

/// Sorting neither loses nor adds networks: the display order is a
/// permutation of the list it was made from.
pub proof fn law_sorted_list_is_permutation(s: Seq<NetworkEntryView>)
    ensures
        sorted_list(s).to_multiset() == s.to_multiset(),
        sorted_list(s).len() == s.len(),
    decreases s.len(),
{
    broadcast use vstd::seq_lib::group_to_multiset_ensures;

    if s.len() > 0 {
        let t = sorted_list(s.drop_last());
        law_sorted_list_is_permutation(s.drop_last());
        let p = insert_pos_from(t, s.last(), 0);
        lemma_insert_pos_bounds(t, s.last(), 0);
        t.insert_ensures(p, s.last());
        let r = t.insert(p, s.last());
        assert(r.remove(p) =~= t);
        assert(r.to_multiset().remove(s.last()) =~= t.to_multiset());
        assert(r.to_multiset().count(s.last()) > 0) by {
            assert(r.contains(s.last())) by {
                assert(r[p] == s.last());
            }
        }
        assert(s.drop_last().push(s.last()) =~= s);
        assert(r.to_multiset() =~= t.to_multiset().insert(s.last()));
    }
}

// ---------------------------------------------------------------------------
// Access points that share an SSID
// ---------------------------------------------------------------------------

/// The signal strength of a Wi-Fi entry (0 for a wired one).
pub open spec fn signal_of(e: NetworkEntryView) -> u8 {
    match e.kind {
        NetworkKindView::Wireless { signal, .. } => signal,
        NetworkKindView::Wired { .. } => 0,
    }
}

/// A newly seen access point replaces the one kept for its SSID when it is the
/// connected one, or when neither is connected and its signal is stronger.
pub open spec fn replaces(new: NetworkEntryView, old: NetworkEntryView) -> bool {
    new.is_connected || (!old.is_connected && signal_of(new) > signal_of(old))
}

/// Index of the first entry at or after `i` named `name` (the length when
/// there is none).
pub open spec fn name_pos_from(s: Seq<NetworkEntryView>, name: Seq<char>, i: int) -> int
    decreases s.len() - i,
{
    if i < 0 || i >= s.len() {
        s.len() as int
    } else if s[i].name == name {
        i
    } else {
        name_pos_from(s, name, i + 1)
    }
}

/// Index of the first entry named `name` (the length when there is none).
pub open spec fn name_pos(s: Seq<NetworkEntryView>, name: Seq<char>) -> int {
    name_pos_from(s, name, 0)
}

/// The list of kept access points after seeing `e`.
pub open spec fn merged(s: Seq<NetworkEntryView>, e: NetworkEntryView) -> Seq<NetworkEntryView> {
    let i = name_pos(s, e.name);
    if i >= s.len() {
        s.push(e)
    } else if replaces(e, s[i]) {
        s.update(i, e)
    } else {
        s
    }
}

/// No two entries share a name.
pub open spec fn unique_names(s: Seq<NetworkEntryView>) -> bool {
    forall|i: int, j: int|
        0 <= i < s.len() && 0 <= j < s.len() && i != j ==> (#[trigger] s[i]).name != (
        #[trigger] s[j]).name
}

proof fn lemma_name_pos_facts(s: Seq<NetworkEntryView>, name: Seq<char>, i: int)
    requires
        0 <= i <= s.len(),
    ensures
        i <= name_pos_from(s, name, i) <= s.len(),
        forall|k: int| i <= k < name_pos_from(s, name, i) ==> (#[trigger] s[k]).name != name,
        name_pos_from(s, name, i) < s.len() ==> s[name_pos_from(s, name, i)].name == name,
    decreases s.len() - i,
{
    if i < s.len() && s[i].name != name {
        lemma_name_pos_facts(s, name, i + 1);
    }
}

proof fn lemma_find_name_views(s: Seq<NetworkEntry>, name: Seq<char>, i: int)
    requires
        0 <= i <= s.len(),
    ensures
        find_name_from(s, name, i) == name_pos_from(views(s), name, i),
    decreases s.len() - i,
{
    if i < s.len() {
        assert(views(s)[i] == s[i]@);
        lemma_find_name_views(s, name, i + 1);
    }
}

/// Keeps one access point per SSID: adds `entry` when its SSID is new, or
/// replaces the kept one when `entry` is preferred (see `replaces`).
pub fn merge_access_point(seen: &mut Vec<NetworkEntry>, entry: NetworkEntry)
    ensures
        views(final(seen)@) == merged(views(old(seen)@), entry@),
        unique_names(views(old(seen)@)) ==> unique_names(views(final(seen)@)),
{
    proof {
        lemma_name_pos_facts(views(seen@), entry.name@, 0);
        lemma_find_name_views(seen@, entry.name@, 0);
    }
    let ghost old_seen = seen@;
    let i = crate::app::find_name_index(seen, &entry.name);
    if i == seen.len() {
        seen.push(entry);
        assert(views(seen@) =~= views(old_seen).push(entry@));
    } else {
        assert(views(seen@)[i as int] == seen@[i as int]@);
        let existing_connected = seen[i].is_connected;
        let existing_signal: u8 = match &seen[i].kind {
            NetworkKind::Wireless { signal, .. } => *signal,
            _ => 0,
        };
        let new_signal: u8 = match &entry.kind {
            NetworkKind::Wireless { signal, .. } => *signal,
            _ => 0,
        };
        if entry.is_connected || (!existing_connected && new_signal > existing_signal) {
            seen.set(i, entry);
            assert(views(seen@) =~= views(old_seen).update(i as int, entry@));
        }
    }
}

/// Merging keeps the connected access point: once an access point of an SSID
/// that is connected has been seen, the entry kept for that SSID is connected.
pub proof fn law_merge_keeps_connected(s: Seq<NetworkEntryView>, e: NetworkEntryView)
    requires
        unique_names(s),
    ensures
        ({
            let r = merged(s, e);
            let k = name_pos(r, e.name);
            &&& k < r.len()
            &&& (e.is_connected || (name_pos(s, e.name) < s.len() && s[name_pos(
                s,
                e.name,
            )].is_connected)) ==> r[k].is_connected
        }),
{
    lemma_name_pos_facts(s, e.name, 0);
    let r = merged(s, e);
    lemma_name_pos_facts(r, e.name, 0);
    let i = name_pos(s, e.name);
    if i >= s.len() {
        assert(r[s.len() as int].name == e.name);
    } else {
        assert(r[i].name == e.name);
        assert(name_pos(r, e.name) <= i);
        if name_pos(r, e.name) < i {
            assert(r[name_pos(r, e.name)] == s[name_pos(r, e.name)]);
        }
    }
}

// ---------------------------------------------------------------------------
// Saved connection profiles
// ---------------------------------------------------------------------------

/// The characters of an optional string.
pub open spec fn opt_view(o: Option<String>) -> Option<Seq<char>> {
    match o {
        Some(s) => Some(s@),
        None => None,
    }
}

/// One key under which a saved profile can be found.
pub struct SavedConnection {
    pub key: String,
    pub path: Option<String>,
    pub autoconnect: bool,
}

/// The table of saved profiles built from all recordings, in order; a later
/// recording of a key replaces an earlier one.
pub open spec fn saved_map(s: Seq<SavedConnection>) -> Map<Seq<char>, (Option<Seq<char>>, bool)>
    decreases s.len(),
{
    if s.len() == 0 {
        Map::empty()
    } else {
        saved_map(s.drop_last()).insert(
            s.last().key@,
            (opt_view(s.last().path), s.last().autoconnect),
        )
    }
}

/// Saved connection profiles by id, UUID, interface name and SSID: for each
/// key, the profile's object path and its autoconnect flag.
pub struct SavedConnections {
    entries: Vec<SavedConnection>,
}

impl View for SavedConnections {
    type V = Map<Seq<char>, (Option<Seq<char>>, bool)>;

    closed spec fn view(&self) -> Self::V {
        saved_map(self.entries@)
    }
}

proof fn lemma_saved_map_suffix(s: Seq<SavedConnection>, i: int, k: Seq<char>)
    requires
        0 <= i <= s.len(),
        forall|j: int| i <= j < s.len() ==> (#[trigger] s[j]).key@ != k,
    ensures
        saved_map(s).contains_key(k) == saved_map(s.take(i)).contains_key(k),
        saved_map(s).contains_key(k) ==> saved_map(s)[k] == saved_map(s.take(i))[k],
    decreases s.len() - i,
{
    if i < s.len() {
        assert(s.drop_last().take(i) =~= s.take(i));
        lemma_saved_map_suffix(s.drop_last(), i, k);
    } else {
        assert(s.take(i) =~= s);
    }
}

/// The `(path, autoconnect)` found under `key`, or `(None, default)`.
pub open spec fn lookup_or(
    m: Map<Seq<char>, (Option<Seq<char>>, bool)>,
    key: Seq<char>,
    default_autoconnect: bool,
) -> (Option<Seq<char>>, bool) {
    if m.contains_key(key) {
        m[key]
    } else {
        (None, default_autoconnect)
    }
}

/// Records `(path, autoconnect)` under `key` when a key is present.
pub open spec fn record_key(
    m: Map<Seq<char>, (Option<Seq<char>>, bool)>,
    key: Option<Seq<char>>,
    path: Seq<char>,
    autoconnect: bool,
) -> Map<Seq<char>, (Option<Seq<char>>, bool)> {
    match key {
        Some(k) => m.insert(k, (Some(path), autoconnect)),
        None => m,
    }
}

impl SavedConnections {
    /// An empty table.
    pub fn new() -> (r: Self)
        ensures
            r@ == Map::<Seq<char>, (Option<Seq<char>>, bool)>::empty(),
    {
        SavedConnections { entries: Vec::new() }
    }

    /// Records `(path, autoconnect)` under `key`, replacing what was there.
    pub fn insert(&mut self, key: String, path: Option<String>, autoconnect: bool)
        ensures
            final(self)@ == old(self)@.insert(key@, (opt_view(path), autoconnect)),
    {
        let ghost old_entries = self.entries@;
        self.entries.push(SavedConnection { key, path, autoconnect });
        assert(self.entries@.drop_last() =~= old_entries);
    }

    /// What is recorded under `key`.
    pub fn get(&self, key: &str) -> (r: Option<(Option<String>, bool)>)
        ensures
            r is Some <==> self@.contains_key(key@),
            r matches Some(v) ==> self@[key@] == (opt_view(v.0), v.1),
    {
        let mut i: usize = self.entries.len();
        while i > 0
            invariant
                i <= self.entries@.len(),
                forall|j: int| i <= j < self.entries@.len() ==> (#[trigger] self.entries@[j]).key@
                    != key@,
            decreases i,
        {
            let e = &self.entries[i - 1];
            if crate::text::str_eq(e.key.as_str(), key) {
                proof {
                    lemma_saved_map_suffix(self.entries@, i as int, key@);
                    assert(self.entries@.take(i as int).drop_last() =~= self.entries@.take(
                        i - 1,
                    ));
                }
                return Some((clone_opt_string(&e.path), e.autoconnect));
            }
            i = i - 1;
        }
        proof {
            lemma_saved_map_suffix(self.entries@, 0, key@);
            assert(self.entries@.take(0) =~= Seq::<SavedConnection>::empty());
        }
        None
    }

    /// The profile path and autoconnect flag found under `key`, or no path and
    /// `default_autoconnect` when the key is unknown.
    pub fn lookup_or(&self, key: &str, default_autoconnect: bool) -> (r: (Option<String>, bool))
        ensures
            (opt_view(r.0), r.1) == lookup_or(self@, key@, default_autoconnect),
    {
        match self.get(key) {
            Some(v) => v,
            None => (None, default_autoconnect),
        }
    }

    /// Records one saved profile under its id, UUID, interface name and SSID,
    /// in that order, each when present.
    pub fn record_profile(
        &mut self,
        path: &str,
        id: Option<String>,
        uuid: Option<String>,
        interface_name: Option<String>,
        ssid: Option<String>,
        autoconnect: bool,
    )
        ensures
            final(self)@ == record_key(
                record_key(
                    record_key(record_key(old(self)@, opt_view(id), path@, autoconnect), opt_view(uuid), path@, autoconnect),
                    opt_view(interface_name),
                    path@,
                    autoconnect,
                ),
                opt_view(ssid),
                path@,
                autoconnect,
            ),
    {
        if let Some(k) = id {
            self.insert(k, Some(String::from_str(path)), autoconnect);
        }
        if let Some(k) = uuid {
            self.insert(k, Some(String::from_str(path)), autoconnect);
        }
        if let Some(k) = interface_name {
            self.insert(k, Some(String::from_str(path)), autoconnect);
        }
        if let Some(k) = ssid {
            self.insert(k, Some(String::from_str(path)), autoconnect);
        }
    }
}

/// What is recorded last under a key is what is found under it, and recording
/// one key leaves every other key as it was.
pub proof fn law_saved_read_after_write(
    m: Map<Seq<char>, (Option<Seq<char>>, bool)>,
    k: Seq<char>,
    v: (Option<Seq<char>>, bool),
    other: Seq<char>,
    default_autoconnect: bool,
)
    ensures
        lookup_or(m.insert(k, v), k, default_autoconnect) == v,
        other != k ==> lookup_or(m.insert(k, v), other, default_autoconnect) == lookup_or(
            m,
            other,
            default_autoconnect,
        ),
{
}

// ---------------------------------------------------------------------------
// Devices and access points
// ---------------------------------------------------------------------------

/// The kinds of NetworkManager device that are listed.
#[derive(Debug, Clone, Copy, PartialEq, Eq, Structural)]
pub enum DeviceKind {
    Ethernet,
    Wifi,
    Other,
}

/// Classifies a device by its NetworkManager `DeviceType`.
pub fn device_kind(dev_type: u32) -> (k: DeviceKind)
    ensures
        k == (if dev_type == crate::nm::DEVICE_TYPE_ETHERNET {
            DeviceKind::Ethernet
        } else if dev_type == crate::nm::DEVICE_TYPE_WIFI {
            DeviceKind::Wifi
        } else {
            DeviceKind::Other
        }),
{
    if dev_type == crate::nm::DEVICE_TYPE_ETHERNET {
        DeviceKind::Ethernet
    } else if dev_type == crate::nm::DEVICE_TYPE_WIFI {
        DeviceKind::Wifi
    } else {
        DeviceKind::Other
    }
}

/// Whether a device `State` means the device is activated.
pub fn is_activated(state: u32) -> (b: bool)
    ensures
        b == (state == crate::nm::DEVICE_STATE_ACTIVATED),
{
    state == crate::nm::DEVICE_STATE_ACTIVATED
}

/// `s` without the trailing run of character `c` (as `str::trim_end_matches`).
pub open spec fn trim_end_char(s: Seq<char>, c: char) -> Seq<char>
    decreases s.len(),
{
    if s.len() > 0 && s.last() == c {
        trim_end_char(s.drop_last(), c)
    } else {
        s
    }
}

/// An object path without trailing slashes.
pub fn trim_trailing_slashes(s: &str) -> (r: String)
    ensures
        r@ == trim_end_char(s@, '/'),
{
    let v = chars_of(s);
    let mut n = v.len();
    assert(v@.take(n as int) =~= v@);
    while n > 0 && v[n - 1] == '/'
        invariant
            v@ == s@,
            n <= v@.len(),
            trim_end_char(s@, '/') == trim_end_char(v@.take(n as int), '/'),
        decreases n,
    {
        assert(v@.take(n as int).drop_last() =~= v@.take(n - 1));
        n = n - 1;
    }
    assert(trim_end_char(v@.take(n as int), '/') == v@.take(n as int));
    let mut out = String::new();
    let mut k: usize = 0;
    while k < n
        invariant
            v@ == s@,
            k <= n <= v@.len(),
            out@ == v@.take(k as int),
        decreases n - k,
    {
        crate::text::push_char(&mut out, v[k]);
        assert(v@.take(k + 1) =~= v@.take(k as int).push(v@[k as int]));
        k = k + 1;
    }
    out
}

/// D-Bus uses the path `/` for "no object".
pub open spec fn is_object_set(path: Seq<char>) -> bool {
    path != "/"@
}

/// Whether an object path names an object (is not `/`).
pub fn object_path_is_set(path: &str) -> (b: bool)
    ensures
        b == is_object_set(path@),
{
    !crate::text::str_eq(path, "/")
}

/// The key by which the active access point of a device is recognised: its
/// path without trailing slashes while the device is activated and has one,
/// otherwise empty.
pub open spec fn active_ap_key_spec(activated: bool, active_ap: Option<Seq<char>>) -> Seq<char> {
    match active_ap {
        Some(p) => if activated && is_object_set(p) {
            trim_end_char(p, '/')
        } else {
            Seq::empty()
        },
        None => Seq::empty(),
    }
}

/// The key of a device's active access point (see `active_ap_key_spec`).
pub fn active_ap_key(activated: bool, active_ap: Option<&str>) -> (r: String)
    ensures
        r@ == active_ap_key_spec(
            activated,
            match active_ap {
                Some(p) => Some(p@),
                None => None,
            },
        ),
{
    match active_ap {
        Some(p) => {
            if activated && object_path_is_set(p) {
                trim_trailing_slashes(p)
            } else {
                String::new()
            }
        },
        None => String::new(),
    }
}

/// An access point is the connected one when its device is activated and it is
/// the device's active access point or carries the active connection's SSID.
pub open spec fn ap_connected_spec(
    activated: bool,
    active_ap_key: Seq<char>,
    ap_path: Seq<char>,
    active_ssid: Option<Seq<char>>,
    ssid: Seq<char>,
) -> bool {
    activated && ((active_ap_key.len() > 0 && trim_end_char(ap_path, '/') == active_ap_key) || (
    active_ssid == Some(ssid)))
}

/// Whether an access point is the connected one (see `ap_connected_spec`).
pub fn ap_is_connected(
    activated: bool,
    active_ap_key: &str,
    ap_path: &str,
    active_ssid: Option<&str>,
    ssid: &str,
) -> (b: bool)
    ensures
        b == ap_connected_spec(
            activated,
            active_ap_key@,
            ap_path@,
            match active_ssid {
                Some(x) => Some(x@),
                None => None,
            },
            ssid@,
        ),
{
    if !activated {
        return false;
    }
    let clean = trim_trailing_slashes(ap_path);
    if active_ap_key.unicode_len() > 0 && crate::text::str_eq(clean.as_str(), active_ap_key) {
        return true;
    }
    match active_ssid {
        Some(x) => crate::text::str_eq(x, ssid),
        None => false,
    }
}

/// What `String::from_utf8_lossy` gives for a byte string.
pub uninterp spec fn utf8_lossy(bytes: Seq<u8>) -> Seq<char>;

/// Decodes bytes as UTF-8, replacing invalid sequences.
/// Trusted: calls `String::from_utf8_lossy`; the result is named
/// `utf8_lossy` of the bytes, and for valid UTF-8 it is, as std documents,
/// the decoded text.
#[verifier::external_body]
fn decode_lossy(bytes: &[u8]) -> (r: String)
    ensures
        r@ == utf8_lossy(bytes@),
        vstd::utf8::valid_utf8(bytes@) ==> r@ == vstd::utf8::decode_utf8(bytes@),
{
    String::from_utf8_lossy(bytes).to_string()
}

/// The text of an SSID as stored in bytes (in a saved profile or by an access
/// point): the bytes decoded as UTF-8, invalid sequences replaced.
pub fn ssid_text(raw: &[u8]) -> (r: String)
    ensures
        r@ == utf8_lossy(raw@),
        vstd::utf8::valid_utf8(raw@) ==> r@ == vstd::utf8::decode_utf8(raw@),
{
    decode_lossy(raw)
}

/// The SSID under which an access point is listed, from its raw bytes: the
/// bytes decoded as UTF-8 (invalid sequences replaced), or `None` for a hidden
/// network whose SSID is blank.
pub fn listed_ssid(raw: &[u8]) -> (r: Option<String>)
    ensures
        match r {
            Some(s) => s@ == utf8_lossy(raw@) && crate::text::trim_seq(s@).len() > 0,
            None => crate::text::trim_seq(utf8_lossy(raw@)).len() == 0,
        },
        vstd::utf8::valid_utf8(raw@) ==> match r {
            Some(s) => s@ == vstd::utf8::decode_utf8(raw@),
            None => crate::text::trim_seq(vstd::utf8::decode_utf8(raw@)).len() == 0,
        },
{
    let ssid = ssid_text(raw);
    if crate::text::is_blank(ssid.as_str()) {
        None
    } else {
        Some(ssid)
    }
}

/// The entry for a wired interface, as a view.
pub open spec fn wired_entry_view(
    interface: Seq<char>,
    speed: u32,
    activated: bool,
    ip_address: Option<Seq<char>>,
    gateway: Option<Seq<char>>,
    dbus_path: Seq<char>,
    saved: Map<Seq<char>, (Option<Seq<char>>, bool)>,
) -> NetworkEntryView {
    let (connection_path, autoconnect) = lookup_or(saved, interface, true);
    NetworkEntryView {
        name: interface,
        kind: NetworkKindView::Wired { interface, speed },
        is_connected: activated,
        autoconnect,
        ip_address: if activated {
            ip_address
        } else {
            None
        },
        gateway: if activated {
            gateway
        } else {
            None
        },
        dbus_path,
        connection_path,
        ap_path: None,
    }
}

/// The entry for a wired interface: its address and gateway are shown only
/// while it is activated.
pub fn wired_entry(
    interface: String,
    speed: u32,
    activated: bool,
    ip_address: Option<String>,
    gateway: Option<String>,
    dbus_path: String,
    saved: &SavedConnections,
) -> (e: NetworkEntry)
    ensures
        e@ == wired_entry_view(
            interface@,
            speed,
            activated,
            opt_view(ip_address),
            opt_view(gateway),
            dbus_path@,
            saved@,
        ),
        !e.is_connected ==> e.ip_address is None && e.gateway is None,
{
    let (connection_path, autoconnect) = saved.lookup_or(interface.as_str(), true);
    let (ip_address, gateway) = if activated {
        (ip_address, gateway)
    } else {
        (None, None)
    };
    NetworkEntry {
        name: interface.clone(),
        kind: NetworkKind::Wired { interface, speed },
        is_connected: activated,
        autoconnect,
        ip_address,
        gateway,
        dbus_path,
        connection_path,
        ap_path: None,
    }
}

/// The entry for a Wi-Fi access point, as a view.
pub open spec fn wireless_entry_view(
    ssid: Seq<char>,
    ap_path: Seq<char>,
    bssid: Seq<char>,
    strength: u8,
    wpa_flags: u32,
    rsn_flags: u32,
    is_connected: bool,
    ip_address: Option<Seq<char>>,
    gateway: Option<Seq<char>>,
    dbus_path: Seq<char>,
    saved: Map<Seq<char>, (Option<Seq<char>>, bool)>,
) -> NetworkEntryView {
    let (connection_path, autoconnect) = lookup_or(saved, ssid, false);
    NetworkEntryView {
        name: ssid,
        kind: NetworkKindView::Wireless {
            ssid,
            bssid,
            signal: strength,
            security: crate::nm::security_label(wpa_flags, rsn_flags),
        },
        is_connected,
        autoconnect,
        ip_address: if is_connected {
            ip_address
        } else {
            None
        },
        gateway: if is_connected {
            gateway
        } else {
            None
        },
        dbus_path,
        connection_path,
        ap_path: Some(ap_path),
    }
}

/// The entry for a Wi-Fi access point; the device's address and gateway are
/// shown only on the connected access point.
pub fn wireless_entry(
    ssid: String,
    ap_path: String,
    bssid: String,
    strength: u8,
    wpa_flags: u32,
    rsn_flags: u32,
    is_connected: bool,
    ip_address: &Option<String>,
    gateway: &Option<String>,
    dbus_path: &str,
    saved: &SavedConnections,
) -> (e: NetworkEntry)
    ensures
        e@ == wireless_entry_view(
            ssid@,
            ap_path@,
            bssid@,
            strength,
            wpa_flags,
            rsn_flags,
            is_connected,
            opt_view(*ip_address),
            opt_view(*gateway),
            dbus_path@,
            saved@,
        ),
        !e.is_connected ==> e.ip_address is None && e.gateway is None,
{
    let security = crate::nm::parse_security(wpa_flags, rsn_flags);
    let (connection_path, autoconnect) = saved.lookup_or(ssid.as_str(), false);
    NetworkEntry {
        name: ssid.clone(),
        kind: NetworkKind::Wireless { ssid, bssid, signal: strength, security },
        is_connected,
        autoconnect,
        ip_address: if is_connected {
            clone_opt_string(ip_address)
        } else {
            None
        },
        gateway: if is_connected {
            clone_opt_string(gateway)
        } else {
            None
        },
        dbus_path: String::from_str(dbus_path),
        connection_path,
        ap_path: Some(ap_path),
    }
}

/// Whether some listed network of the given name is connected.
pub fn network_connected(networks: &Vec<NetworkEntry>, name: &str) -> (b: bool)
    ensures
        b == exists|i: int|
            0 <= i < networks@.len() && (#[trigger] networks@[i]).name@ == name@
                && networks@[i].is_connected,
{
    let n = networks.len();
    let mut i: usize = 0;
    while i < n
        invariant
            n == networks@.len(),
            i <= n,
            forall|k: int|
                0 <= k < i ==> !((#[trigger] networks@[k]).name@ == name@
                    && networks@[k].is_connected),
        decreases n - i,
    {
        if networks[i].is_connected && crate::text::str_eq(networks[i].name.as_str(), name) {
            return true;
        }
        i = i + 1;
    }
    false
}

// ---------------------------------------------------------------------------
// The whole list
// ---------------------------------------------------------------------------

/// An access point as NetworkManager reports it.
pub struct AccessPointRecord {
    /// Its object path.
    pub path: String,
    /// The raw SSID bytes.
    pub ssid: Vec<u8>,
    pub strength: u8,
    pub hw_address: String,
    pub wpa_flags: u32,
    pub rsn_flags: u32,
}

/// A network device as NetworkManager reports it: what the list needs of the
/// device and, for a Wi-Fi device, of each of its access points.
pub struct DeviceRecord {
    /// Its object path.
    pub path: String,
    pub dev_type: u32,
    pub state: u32,
    pub interface: String,
    /// Link speed of a wired device.
    pub speed: u32,
    /// Address (with prefix length) and gateway of an activated device.
    pub ip_address: Option<String>,
    pub gateway: Option<String>,
    /// Path of the active access point of a Wi-Fi device, when it has one.
    pub active_ap: Option<String>,
    /// Name of the device's active connection, when it has one.
    pub active_ssid: Option<String>,
    pub access_points: Vec<AccessPointRecord>,
}

/// The SSID under which an access point would be listed.
pub open spec fn ap_ssid(ap: AccessPointRecord) -> Seq<char> {
    utf8_lossy(ap.ssid@)
}

/// An access point is listed unless its SSID is blank (a hidden network).
pub open spec fn ap_listed(ap: AccessPointRecord) -> bool {
    crate::text::trim_seq(ap_ssid(ap)).len() > 0
}

/// Whether a device is activated.
pub open spec fn device_activated(d: DeviceRecord) -> bool {
    d.state == crate::nm::DEVICE_STATE_ACTIVATED
}

/// The entry of one access point of a Wi-Fi device.
pub open spec fn ap_entry_view(
    d: DeviceRecord,
    ap: AccessPointRecord,
    saved: Map<Seq<char>, (Option<Seq<char>>, bool)>,
) -> NetworkEntryView {
    let activated = device_activated(d);
    let connected = ap_connected_spec(
        activated,
        active_ap_key_spec(activated, opt_view(d.active_ap)),
        ap.path@,
        opt_view(d.active_ssid),
        ap_ssid(ap),
    );
    wireless_entry_view(
        ap_ssid(ap),
        ap.path@,
        ap.hw_address@,
        ap.strength,
        ap.wpa_flags,
        ap.rsn_flags,
        connected,
        opt_view(d.ip_address),
        opt_view(d.gateway),
        d.path@,
        saved,
    )
}

/// The entries of a Wi-Fi device after seeing the access points `aps` in
/// order: hidden networks skipped, one entry per SSID (see `merged`).
pub open spec fn wifi_entries_view(
    d: DeviceRecord,
    aps: Seq<AccessPointRecord>,
    saved: Map<Seq<char>, (Option<Seq<char>>, bool)>,
) -> Seq<NetworkEntryView>
    decreases aps.len(),
{
    if aps.len() == 0 {
        Seq::empty()
    } else {
        let prev = wifi_entries_view(d, aps.drop_last(), saved);
        if ap_listed(aps.last()) {
            merged(prev, ap_entry_view(d, aps.last(), saved))
        } else {
            prev
        }
    }
}

/// The entries of one device: one for a wired device, one per SSID for a
/// Wi-Fi device, none for any other device.
pub open spec fn device_entries_view(
    d: DeviceRecord,
    saved: Map<Seq<char>, (Option<Seq<char>>, bool)>,
) -> Seq<NetworkEntryView> {
    if d.dev_type == crate::nm::DEVICE_TYPE_ETHERNET {
        seq![
            wired_entry_view(
                d.interface@,
                d.speed,
                device_activated(d),
                opt_view(d.ip_address),
                opt_view(d.gateway),
                d.path@,
                saved,
            ),
        ]
    } else if d.dev_type == crate::nm::DEVICE_TYPE_WIFI {
        wifi_entries_view(d, d.access_points@, saved)
    } else {
        Seq::empty()
    }
}

/// The entries of all devices, device by device, before sorting.
pub open spec fn collected_view(
    ds: Seq<DeviceRecord>,
    saved: Map<Seq<char>, (Option<Seq<char>>, bool)>,
) -> Seq<NetworkEntryView>
    decreases ds.len(),
{
    if ds.len() == 0 {
        Seq::empty()
    } else {
        collected_view(ds.drop_last(), saved) + device_entries_view(ds.last(), saved)
    }
}

/// The network list shown for the devices: their entries in display order.
pub open spec fn network_list_view(
    ds: Seq<DeviceRecord>,
    saved: Map<Seq<char>, (Option<Seq<char>>, bool)>,
) -> Seq<NetworkEntryView> {
    sorted_list(collected_view(ds, saved))
}

/// Each kept entry is the entry of one listed access point of `aps`.
pub open spec fn kept_from_aps(
    d: DeviceRecord,
    aps: Seq<AccessPointRecord>,
    saved: Map<Seq<char>, (Option<Seq<char>>, bool)>,
    r: Seq<NetworkEntryView>,
) -> bool {
    forall|i: int|
        #![trigger r[i]]
        0 <= i < r.len() ==> exists|j: int|
            0 <= j < aps.len() && ap_listed(#[trigger] aps[j]) && r[i] == ap_entry_view(
                d,
                aps[j],
                saved,
            )
}

/// Every listed SSID of `aps` has an entry.
pub open spec fn every_ssid_kept(aps: Seq<AccessPointRecord>, r: Seq<NetworkEntryView>) -> bool {
    forall|j: int|
        0 <= j < aps.len() && ap_listed(#[trigger] aps[j]) ==> exists|i: int|
            0 <= i < r.len() && (#[trigger] r[i]).name == ap_ssid(aps[j])
}

/// The entry kept for an SSID is preferred to each access point of that SSID:
/// it is connected when one of them is, and otherwise its signal is at least
/// theirs.
pub open spec fn kept_is_preferred(
    d: DeviceRecord,
    aps: Seq<AccessPointRecord>,
    saved: Map<Seq<char>, (Option<Seq<char>>, bool)>,
    r: Seq<NetworkEntryView>,
) -> bool {
    forall|i: int, j: int|
        0 <= i < r.len() && 0 <= j < aps.len() && ap_listed(#[trigger] aps[j]) && ap_ssid(aps[j])
            == (#[trigger] r[i]).name ==> (ap_entry_view(d, aps[j], saved).is_connected
            ==> r[i].is_connected) && (!r[i].is_connected ==> aps[j].strength <= signal_of(r[i]))
}

proof fn lemma_ap_entry_facts(
    d: DeviceRecord,
    ap: AccessPointRecord,
    saved: Map<Seq<char>, (Option<Seq<char>>, bool)>,
)
    ensures
        ap_entry_view(d, ap, saved).name == ap_ssid(ap),
        signal_of(ap_entry_view(d, ap, saved)) == ap.strength,
        ap_entry_view(d, ap, saved).is_connected ==> device_activated(d),
{
}

proof fn lemma_merged_unique(s: Seq<NetworkEntryView>, e: NetworkEntryView)
    requires
        unique_names(s),
    ensures
        unique_names(merged(s, e)),
{
    lemma_name_pos_facts(s, e.name, 0);
    let r = merged(s, e);
    assert forall|i: int, j: int|
        0 <= i < r.len() && 0 <= j < r.len() && i != j implies (#[trigger] r[i]).name != (
        #[trigger] r[j]).name by {
        if name_pos(s, e.name) >= s.len() {
            if i == s.len() {
                assert(r[j] == s[j]);
            } else if j == s.len() {
                assert(r[i] == s[i]);
            } else {
                assert(r[i] == s[i] && r[j] == s[j]);
            }
        } else if replaces(e, s[name_pos(s, e.name)]) {
            let k = name_pos(s, e.name);
            if i == k {
                assert(r[j] == s[j]);
                assert(s[k].name == e.name);
            } else if j == k {
                assert(r[i] == s[i]);
                assert(s[k].name == e.name);
            } else {
                assert(r[i] == s[i] && r[j] == s[j]);
            }
        }
    }
}

proof fn lemma_merged_members(s: Seq<NetworkEntryView>, e: NetworkEntryView, i: int)
    requires
        0 <= i < merged(s, e).len(),
    ensures
        merged(s, e)[i] == e || (0 <= i < s.len() && merged(s, e)[i] == s[i]),
{
    lemma_name_pos_facts(s, e.name, 0);
}

proof fn lemma_wifi_unique(
    d: DeviceRecord,
    aps: Seq<AccessPointRecord>,
    saved: Map<Seq<char>, (Option<Seq<char>>, bool)>,
)
    ensures
        unique_names(wifi_entries_view(d, aps, saved)),
    decreases aps.len(),
{
    if aps.len() > 0 {
        lemma_wifi_unique(d, aps.drop_last(), saved);
        if ap_listed(aps.last()) {
            lemma_merged_unique(
                wifi_entries_view(d, aps.drop_last(), saved),
                ap_entry_view(d, aps.last(), saved),
            );
        }
    }
}

proof fn lemma_wifi_kept_from(
    d: DeviceRecord,
    aps: Seq<AccessPointRecord>,
    saved: Map<Seq<char>, (Option<Seq<char>>, bool)>,
)
    ensures
        kept_from_aps(d, aps, saved, wifi_entries_view(d, aps, saved)),
    decreases aps.len(),
{
    if aps.len() > 0 {
        let p = aps.drop_last();
        let a = aps.last();
        let n = p.len() as int;
        lemma_wifi_kept_from(d, p, saved);
        let r0 = wifi_entries_view(d, p, saved);
        let r = wifi_entries_view(d, aps, saved);
        assert(aps[n] == a);
        assert forall|i: int| #![trigger r[i]] 0 <= i < r.len() implies exists|j: int|
            0 <= j < aps.len() && ap_listed(#[trigger] aps[j]) && r[i] == ap_entry_view(
                d,
                aps[j],
                saved,
            ) by {
            if ap_listed(a) {
                lemma_merged_members(r0, ap_entry_view(d, a, saved), i);
            }
            if ap_listed(a) && r[i] == ap_entry_view(d, a, saved) {
                assert(ap_listed(aps[n]));
            } else {
                assert(r[i] == r0[i]);
                let j = choose|j: int|
                    0 <= j < p.len() && ap_listed(#[trigger] p[j]) && r0[i] == ap_entry_view(
                        d,
                        p[j],
                        saved,
                    );
                assert(p[j] == aps[j]);
            }
        }
    }
}

proof fn lemma_wifi_every_ssid(
    d: DeviceRecord,
    aps: Seq<AccessPointRecord>,
    saved: Map<Seq<char>, (Option<Seq<char>>, bool)>,
)
    ensures
        every_ssid_kept(aps, wifi_entries_view(d, aps, saved)),
    decreases aps.len(),
{
    if aps.len() > 0 {
        let p = aps.drop_last();
        let a = aps.last();
        let n = p.len() as int;
        lemma_wifi_every_ssid(d, p, saved);
        let r0 = wifi_entries_view(d, p, saved);
        let r = wifi_entries_view(d, aps, saved);
        let e = ap_entry_view(d, a, saved);
        lemma_ap_entry_facts(d, a, saved);
        lemma_name_pos_facts(r0, e.name, 0);
        let k = name_pos(r0, e.name);
        assert(aps[n] == a);
        assert forall|j: int| 0 <= j < aps.len() && ap_listed(#[trigger] aps[j]) implies exists|
            i: int,
        | 0 <= i < r.len() && (#[trigger] r[i]).name == ap_ssid(aps[j]) by {
            if j == n {
                if k >= r0.len() {
                    assert(r[r0.len() as int] == e);
                } else {
                    assert(r[k].name == e.name);
                }
            } else {
                assert(p[j] == aps[j]);
                let i0 = choose|i: int| 0 <= i < r0.len() && (#[trigger] r0[i]).name == ap_ssid(
                    p[j],
                );
                if ap_listed(a) && k < r0.len() && i0 == k {
                    assert(r[k].name == e.name);
                } else {
                    assert(r[i0] == r0[i0]);
                }
            }
        }
    }
}

/// One step of `kept_is_preferred`: a listed access point `a` seen after `p`.
proof fn lemma_preferred_step(
    d: DeviceRecord,
    p: Seq<AccessPointRecord>,
    a: AccessPointRecord,
    saved: Map<Seq<char>, (Option<Seq<char>>, bool)>,
    r0: Seq<NetworkEntryView>,
)
    requires
        ap_listed(a),
        unique_names(r0),
        every_ssid_kept(p, r0),
        kept_is_preferred(d, p, saved, r0),
    ensures
        kept_is_preferred(d, p.push(a), saved, merged(r0, ap_entry_view(d, a, saved))),
{
    let aps = p.push(a);
    let n = p.len() as int;
    let e = ap_entry_view(d, a, saved);
    let r = merged(r0, e);
    lemma_ap_entry_facts(d, a, saved);
    lemma_name_pos_facts(r0, e.name, 0);
    let k = name_pos(r0, e.name);
    assert(aps[n] == a);
    assert forall|i: int, j: int|
        0 <= i < r.len() && 0 <= j < aps.len() && ap_listed(#[trigger] aps[j]) && ap_ssid(aps[j])
            == (#[trigger] r[i]).name implies (ap_entry_view(d, aps[j], saved).is_connected
        ==> r[i].is_connected) && (!r[i].is_connected ==> aps[j].strength <= signal_of(r[i])) by {
        lemma_ap_entry_facts(d, aps[j], saved);
        if j < n {
            assert(p[j] == aps[j]);
        }
        if k >= r0.len() {
            if i == r0.len() {
                if j < n {
                    let i0 = choose|i0: int|
                        0 <= i0 < r0.len() && (#[trigger] r0[i0]).name == ap_ssid(p[j]);
                    assert(r0[i0].name != e.name);
                }
            } else {
                assert(r[i] == r0[i]);
                if j == n {
                    assert(r0[i].name != e.name);
                }
            }
        } else if replaces(e, r0[k]) {
            if i == k {
                assert(r0[k].name == e.name);
            } else {
                assert(r[i] == r0[i]);
                if j == n {
                    assert(r0[k].name == e.name);
                    assert(r0[i].name != r0[k].name);
                }
            }
        } else {
            assert(r[i] == r0[i]);
            if j == n && i != k {
                assert(r0[k].name == e.name);
                assert(r0[i].name != r0[k].name);
            }
        }
    }
}

proof fn lemma_wifi_preferred(
    d: DeviceRecord,
    aps: Seq<AccessPointRecord>,
    saved: Map<Seq<char>, (Option<Seq<char>>, bool)>,
)
    ensures
        kept_is_preferred(d, aps, saved, wifi_entries_view(d, aps, saved)),
    decreases aps.len(),
{
    if aps.len() > 0 {
        let p = aps.drop_last();
        let a = aps.last();
        let n = p.len() as int;
        lemma_wifi_preferred(d, p, saved);
        let r0 = wifi_entries_view(d, p, saved);
        assert(p.push(a) =~= aps);
        if ap_listed(a) {
            lemma_wifi_unique(d, p, saved);
            lemma_wifi_every_ssid(d, p, saved);
            lemma_preferred_step(d, p, a, saved, r0);
        } else {
            let r = wifi_entries_view(d, aps, saved);
            assert forall|i: int, j: int|
                0 <= i < r.len() && 0 <= j < aps.len() && ap_listed(#[trigger] aps[j]) && ap_ssid(
                    aps[j],
                ) == (#[trigger] r[i]).name implies (ap_entry_view(d, aps[j], saved).is_connected
                ==> r[i].is_connected) && (!r[i].is_connected ==> aps[j].strength <= signal_of(
                r[i],
            )) by {
                assert(j < n);
                assert(p[j] == aps[j]);
            }
        }
    }
}

proof fn lemma_wifi_entries(
    d: DeviceRecord,
    aps: Seq<AccessPointRecord>,
    saved: Map<Seq<char>, (Option<Seq<char>>, bool)>,
)
    ensures
        unique_names(wifi_entries_view(d, aps, saved)),
        kept_from_aps(d, aps, saved, wifi_entries_view(d, aps, saved)),
        every_ssid_kept(aps, wifi_entries_view(d, aps, saved)),
        kept_is_preferred(d, aps, saved, wifi_entries_view(d, aps, saved)),
{
    lemma_wifi_unique(d, aps, saved);
    lemma_wifi_kept_from(d, aps, saved);
    lemma_wifi_every_ssid(d, aps, saved);
    lemma_wifi_preferred(d, aps, saved);
}

/// Within one Wi-Fi device the list holds one entry per SSID, and exactly
/// the SSIDs of the listed (not hidden) access points; each entry is that of
/// one of its access points, the connected one when an access point of that
/// SSID is connected, and otherwise one at least as strong as every other.
pub proof fn law_wifi_device_entries(d: DeviceRecord, saved: Map<Seq<char>, (Option<Seq<char>>, bool)>)
    requires
        d.dev_type == crate::nm::DEVICE_TYPE_WIFI,
    ensures
        ({
            let r = device_entries_view(d, saved);
            let aps = d.access_points@;
            &&& unique_names(r)
            &&& forall|i: int|
                #![trigger r[i]]
                0 <= i < r.len() ==> exists|j: int|
                    0 <= j < aps.len() && ap_listed(#[trigger] aps[j]) && r[i] == ap_entry_view(
                        d,
                        aps[j],
                        saved,
                    )
            &&& forall|j: int|
                0 <= j < aps.len() && ap_listed(#[trigger] aps[j]) ==> exists|i: int|
                    0 <= i < r.len() && (#[trigger] r[i]).name == ap_ssid(aps[j])
            &&& forall|i: int, j: int|
                0 <= i < r.len() && 0 <= j < aps.len() && ap_listed(#[trigger] aps[j]) && ap_ssid(
                    aps[j],
                ) == (#[trigger] r[i]).name ==> (ap_entry_view(d, aps[j], saved).is_connected
                ==> r[i].is_connected) && (!r[i].is_connected ==> aps[j].strength <= signal_of(
                r[i],
            ))
        }),
{
    lemma_wifi_entries(d, d.access_points@, saved);
}

/// A wired device gives exactly one entry, named after its interface and
/// connected exactly when the device is activated; a device that is neither
/// wired nor Wi-Fi gives none.
pub proof fn law_device_entry_count(d: DeviceRecord, saved: Map<Seq<char>, (Option<Seq<char>>, bool)>)
    ensures
        d.dev_type == crate::nm::DEVICE_TYPE_ETHERNET ==> {
            let r = device_entries_view(d, saved);
            &&& r.len() == 1
            &&& r[0].name == d.interface@
            &&& r[0].kind matches NetworkKindView::Wired { interface, speed } && interface
                == d.interface@ && speed == d.speed
            &&& r[0].is_connected == device_activated(d)
        },
        d.dev_type != crate::nm::DEVICE_TYPE_ETHERNET && d.dev_type != crate::nm::DEVICE_TYPE_WIFI
            ==> device_entries_view(d, saved).len() == 0,
{
}

/// An entry belongs to device `d`: it carries the device's path; when
/// connected, the device is activated and the entry shows the device's
/// address and gateway; when not connected, it shows neither.
pub open spec fn entry_of_device(e: NetworkEntryView, d: DeviceRecord) -> bool {
    &&& e.dbus_path == d.path@
    &&& e.is_connected ==> device_activated(d) && e.ip_address == opt_view(d.ip_address)
        && e.gateway == opt_view(d.gateway)
    &&& !e.is_connected ==> e.ip_address is None && e.gateway is None
}

proof fn lemma_device_entries_belong(
    d: DeviceRecord,
    saved: Map<Seq<char>, (Option<Seq<char>>, bool)>,
    i: int,
)
    requires
        0 <= i < device_entries_view(d, saved).len(),
    ensures
        entry_of_device(device_entries_view(d, saved)[i], d),
{
    if d.dev_type == crate::nm::DEVICE_TYPE_WIFI {
        lemma_wifi_entries(d, d.access_points@, saved);
        let aps = d.access_points@;
        let j = choose|j: int|
            0 <= j < aps.len() && ap_listed(#[trigger] aps[j]) && device_entries_view(d, saved)[i]
                == ap_entry_view(d, aps[j], saved);
        lemma_ap_entry_facts(d, aps[j], saved);
    }
}

proof fn lemma_collected_belong(
    ds: Seq<DeviceRecord>,
    saved: Map<Seq<char>, (Option<Seq<char>>, bool)>,
    i: int,
)
    requires
        0 <= i < collected_view(ds, saved).len(),
    ensures
        exists|k: int| 0 <= k < ds.len() && entry_of_device(collected_view(ds, saved)[i], #[trigger] ds[k]),
    decreases ds.len(),
{
    let prev = collected_view(ds.drop_last(), saved);
    let last = device_entries_view(ds.last(), saved);
    if i < prev.len() {
        lemma_collected_belong(ds.drop_last(), saved, i);
        let k = choose|k: int|
            0 <= k < ds.drop_last().len() && entry_of_device(prev[i], #[trigger] ds.drop_last()[k]);
        assert(ds.drop_last()[k] == ds[k]);
    } else {
        lemma_device_entries_belong(ds.last(), saved, i - prev.len());
        assert(ds[ds.len() - 1] == ds.last());
    }
}

/// Every listed network belongs to a reported device (see `entry_of_device`):
/// a network that is not connected shows no address or gateway, and a
/// connected one is on an activated device and shows that device's address
/// and gateway.
pub proof fn law_network_list_entries(
    ds: Seq<DeviceRecord>,
    saved: Map<Seq<char>, (Option<Seq<char>>, bool)>,
    i: int,
)
    requires
        0 <= i < network_list_view(ds, saved).len(),
    ensures
        exists|k: int|
            0 <= k < ds.len() && entry_of_device(network_list_view(ds, saved)[i], #[trigger] ds[k]),
{
    broadcast use vstd::seq_lib::group_to_multiset_ensures;

    let c = collected_view(ds, saved);
    let s = network_list_view(ds, saved);
    law_sorted_list_is_permutation(c);
    assert(s.contains(s[i]));
    assert(c.to_multiset().count(s[i]) > 0);
    assert(c.contains(s[i]));
    let m = choose|m: int| 0 <= m < c.len() && c[m] == s[i];
    lemma_collected_belong(ds, saved, m);
}

/// The list is the devices' entries and nothing else, in display order: it is
/// sorted and holds each entry of each device as often as the devices give it.
pub proof fn law_network_list_is_sorted_collection(
    ds: Seq<DeviceRecord>,
    saved: Map<Seq<char>, (Option<Seq<char>>, bool)>,
)
    ensures
        is_sorted(network_list_view(ds, saved)),
        network_list_view(ds, saved).to_multiset() == collected_view(ds, saved).to_multiset(),
        network_list_view(ds, saved).len() == collected_view(ds, saved).len(),
{
    law_sorted_list_is_sorted(collected_view(ds, saved));
    law_sorted_list_is_permutation(collected_view(ds, saved));
}

/// The entries of a Wi-Fi device (see `wifi_entries_view`).
pub fn wifi_entries(d: &DeviceRecord, saved: &SavedConnections) -> (r: Vec<NetworkEntry>)
    ensures
        views(r@) == wifi_entries_view(*d, d.access_points@, saved@),
{
    let activated = is_activated(d.state);
    let active_ap: Option<&str> = match &d.active_ap {
        Some(p) => Some(p.as_str()),
        None => None,
    };
    let key = active_ap_key(activated, active_ap);
    assert(key@ == active_ap_key_spec(activated, opt_view(d.active_ap)));
    let active_ssid: Option<&str> = match &d.active_ssid {
        Some(x) => Some(x.as_str()),
        None => None,
    };
    let n = d.access_points.len();
    let mut seen: Vec<NetworkEntry> = Vec::new();
    let mut i: usize = 0;
    assert(d.access_points@.take(0) =~= Seq::<AccessPointRecord>::empty());
    assert(views(seen@) =~= Seq::<NetworkEntryView>::empty());
    while i < n
        invariant
            n == d.access_points@.len(),
            i <= n,
            activated == device_activated(*d),
            key@ == active_ap_key_spec(activated, opt_view(d.active_ap)),
            match active_ssid {
                Some(x) => Some(x@),
                None => None,
            } == opt_view(d.active_ssid),
            views(seen@) == wifi_entries_view(*d, d.access_points@.take(i as int), saved@),
        decreases n - i,
    {
        let ap = &d.access_points[i];
        proof {
            assert(d.access_points@.take(i + 1).drop_last() =~= d.access_points@.take(i as int));
            assert(d.access_points@.take(i + 1).last() == *ap);
        }
        match listed_ssid(ap.ssid.as_slice()) {
            None => {},
            Some(ssid) => {
                let connected = ap_is_connected(
                    activated,
                    key.as_str(),
                    ap.path.as_str(),
                    active_ssid,
                    ssid.as_str(),
                );
                let entry = wireless_entry(
                    ssid,
                    ap.path.clone(),
                    ap.hw_address.clone(),
                    ap.strength,
                    ap.wpa_flags,
                    ap.rsn_flags,
                    connected,
                    &d.ip_address,
                    &d.gateway,
                    d.path.as_str(),
                    saved,
                );
                assert(entry@ == ap_entry_view(*d, *ap, saved@));
                merge_access_point(&mut seen, entry);
            },
        }
        i = i + 1;
    }
    assert(d.access_points@.take(n as int) =~= d.access_points@);
    seen
}

/// The entries of one device (see `device_entries_view`).
pub fn device_entries(d: &DeviceRecord, saved: &SavedConnections) -> (r: Vec<NetworkEntry>)
    ensures
        views(r@) == device_entries_view(*d, saved@),
{
    match device_kind(d.dev_type) {
        DeviceKind::Ethernet => {
            let e = wired_entry(
                d.interface.clone(),
                d.speed,
                is_activated(d.state),
                clone_opt_string(&d.ip_address),
                clone_opt_string(&d.gateway),
                d.path.clone(),
                saved,
            );
            let mut r: Vec<NetworkEntry> = Vec::new();
            r.push(e);
            assert(views(r@) =~= device_entries_view(*d, saved@));
            r
        },
        DeviceKind::Wifi => wifi_entries(d, saved),
        DeviceKind::Other => {
            let r: Vec<NetworkEntry> = Vec::new();
            assert(views(r@) =~= device_entries_view(*d, saved@));
            r
        },
    }
}

/// Builds the network list from what NetworkManager reports of its devices
/// and from the saved profiles: each device's entries, in display order.
pub fn build_network_list(devices: &Vec<DeviceRecord>, saved: &SavedConnections) -> (r: Vec<
    NetworkEntry,
>)
    ensures
        views(r@) == network_list_view(devices@, saved@),
{
    let n = devices.len();
    let mut entries: Vec<NetworkEntry> = Vec::new();
    let mut i: usize = 0;
    assert(devices@.take(0) =~= Seq::<DeviceRecord>::empty());
    assert(views(entries@) =~= Seq::<NetworkEntryView>::empty());
    while i < n
        invariant
            n == devices@.len(),
            i <= n,
            views(entries@) == collected_view(devices@.take(i as int), saved@),
        decreases n - i,
    {
        let mut part = device_entries(&devices[i], saved);
        let ghost before = entries@;
        let ghost added = part@;
        entries.append(&mut part);
        proof {
            assert(devices@.take(i + 1).drop_last() =~= devices@.take(i as int));
            assert(devices@.take(i + 1).last() == devices@[i as int]);
            assert(views(entries@) =~= views(before) + views(added));
        }
        i = i + 1;
    }
    assert(devices@.take(n as int) =~= devices@);
    sort_networks(entries)
}

} // verus!
