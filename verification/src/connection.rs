//! Finding stored profiles, choosing the active network, and the profile
//! written when a new Wi-Fi network is joined.

use vstd::prelude::*;
use vstd::string::*;
use vstd::utf8::*;
use crate::network::{ConnectionSettings, ConnectionSettingsView, opt_view};
use crate::text::{
    lossy_text, utf8_lossy, trim, str_trim, lowercase, to_lowercase, is_prefix_of, str_starts_with,
    owned,
};

verus! {

// ---------------------------------------------------------------------------
// Recognising a stored profile for an SSID
// ---------------------------------------------------------------------------

/// The profile's `802-11-wireless.ssid` names `ssid`: its bytes are not empty
/// and, decoded leniently, equal `ssid` (possibly after trimming both), or
/// they are exactly the UTF-8 bytes of `ssid`.
pub open spec fn wireless_ssid_matches(c: ConnectionSettingsView, ssid: Seq<char>) -> bool {
    match c.wireless_ssid {
        Some(b) => b.len() > 0 && ({
            let stored = lossy_text(b);
            stored == ssid || trim(stored) == trim(ssid) || b == encode_utf8(ssid)
        }),
        None => false,
    }
}

/// The profile's id names `ssid`, possibly after trimming both.
pub open spec fn id_matches(c: ConnectionSettingsView, ssid: Seq<char>) -> bool {
    match c.id {
        Some(id) => id == ssid || trim(id) == trim(ssid),
        None => false,
    }
}

/// The profile is one for the network `ssid`.
pub open spec fn profile_matches(c: ConnectionSettingsView, ssid: Seq<char>) -> bool {
    wireless_ssid_matches(c, ssid) || id_matches(c, ssid)
}

fn bytes_eq(a: &[u8], b: &[u8]) -> (r: bool)
    ensures
        r == (a@ == b@),
{
    if a.len() != b.len() {
        return false;
    }
    let mut i: usize = 0;
    while i < a.len()
        invariant
            a.len() == b.len(),
            i <= a.len(),
            forall|k: int| 0 <= k < i ==> a@[k] == b@[k],
        decreases a.len() - i,
    {
        if a[i] != b[i] {
            return false;
        }
        i = i + 1;
    }
    assert(a@ =~= b@);
    true
}

/// Whether profile `c` is one for the network `ssid` (see [`profile_matches`]).
pub fn profile_matches_ssid(c: &ConnectionSettings, ssid: &str) -> (r: bool)
    ensures
        r == profile_matches(c@, ssid@),
{
    let wireless = match &c.wireless_ssid {
        Some(b) => {
            if b.len() == 0 {
                false
            } else {
                let stored = utf8_lossy(b.as_slice());
                crate::text::str_eq(stored.as_str(), ssid) || crate::text::str_eq(
                    str_trim(stored.as_str()).as_str(),
                    str_trim(ssid).as_str(),
                ) || bytes_eq(b.as_slice(), ssid.as_bytes())
            }
        },
        None => false,
    };
    let by_id = match &c.id {
        Some(id) => crate::text::str_eq(id.as_str(), ssid) || crate::text::str_eq(
            str_trim(id.as_str()).as_str(),
            str_trim(ssid).as_str(),
        ),
        None => false,
    };
    wireless || by_id
}

/// The path of the first stored profile for the network `ssid`, if any.
pub fn find_saved_connection(conns: &Vec<ConnectionSettings>, ssid: &str) -> (r: Option<String>)
    ensures
        match r {
            Some(p) => exists|k: int|
                0 <= k < conns.len() && profile_matches(conns@[k]@, ssid@) && p@ == conns@[k].path@
                    && forall|j: int| 0 <= j < k ==> !profile_matches(#[trigger] conns@[j]@, ssid@),
            None => forall|k: int| 0 <= k < conns.len() ==> !profile_matches(#[trigger] conns@[k]@, ssid@),
        },
{
    let mut i: usize = 0;
    while i < conns.len()
        invariant
            i <= conns.len(),
            forall|j: int| 0 <= j < i ==> !profile_matches(#[trigger] conns@[j]@, ssid@),
        decreases conns.len() - i,
    {
        if profile_matches_ssid(&conns[i], ssid) {
            return Some(conns[i].path.clone());
        }
        i = i + 1;
    }
    None
}

// ---------------------------------------------------------------------------
// The active network
// ---------------------------------------------------------------------------

/// What is read from one active connection: its type and id, `None` where
/// the property could not be read as text.
pub struct ActiveConnection {
    pub conn_type: Option<String>,
    pub id: Option<String>,
}

/// The mathematical value of an [`ActiveConnection`].
pub struct ActiveConnectionView {
    pub conn_type: Option<Seq<char>>,
    pub id: Option<Seq<char>>,
}

impl View for ActiveConnection {
    type V = ActiveConnectionView;

    open spec fn view(&self) -> ActiveConnectionView {
        ActiveConnectionView { conn_type: opt_view(self.conn_type), id: opt_view(self.id) }
    }
}

/// The id names a virtual interface (Docker, bridges, veth pairs, loopback,
/// libvirt), compared in lower case.
pub open spec fn is_virtual_id(id: Seq<char>) -> bool {
    let l = lowercase(id);
    is_prefix_of("docker"@, l) || is_prefix_of("br-"@, l) || is_prefix_of("veth"@, l)
        || is_prefix_of("lo"@, l) || is_prefix_of("virbr"@, l)
}

/// The active connection can name the current network: its type, when
/// readable, is Wi-Fi or Ethernet, and its id is readable and not virtual.
pub open spec fn names_network(a: ActiveConnectionView) -> bool {
    &&& match a.conn_type {
        Some(t) => t == "802-11-wireless"@ || t == "802-3-ethernet"@,
        None => true,
    }
    &&& match a.id {
        Some(id) => !is_virtual_id(id),
        None => false,
    }
}

/// Whether `id` names a virtual interface (see [`is_virtual_id`]).
pub fn is_virtual_connection_id(id: &str) -> (r: bool)
    ensures
        r == is_virtual_id(id@),
{
    let l = to_lowercase(id);
    let l = l.as_str();
    str_starts_with(l, "docker") || str_starts_with(l, "br-") || str_starts_with(l, "veth")
        || str_starts_with(l, "lo") || str_starts_with(l, "virbr")
}

/// The current network: the id of the first active connection that can name
/// it (see [`names_network`]).
pub fn select_active_ssid(active: &Vec<ActiveConnection>) -> (r: Option<String>)
    ensures
        match r {
            Some(s) => exists|k: int|
                0 <= k < active.len() && names_network(active@[k]@) && active@[k]@.id == Some(s@)
                    && forall|j: int| 0 <= j < k ==> !names_network(#[trigger] active@[j]@),
            None => forall|k: int| 0 <= k < active.len() ==> !names_network(#[trigger] active@[k]@),
        },
{
    let mut i: usize = 0;
    while i < active.len()
        invariant
            i <= active.len(),
            forall|j: int| 0 <= j < i ==> !names_network(#[trigger] active@[j]@),
        decreases active.len() - i,
    {
        let a = &active[i];
        let type_ok = match &a.conn_type {
            Some(t) => crate::text::str_eq(t.as_str(), "802-11-wireless") || crate::text::str_eq(
                t.as_str(),
                "802-3-ethernet",
            ),
            None => true,
        };
        if type_ok {
            match &a.id {
                Some(id) => {
                    if !is_virtual_connection_id(id.as_str()) {
                        return Some(id.clone());
                    }
                },
                None => {},
            }
        }
        i = i + 1;
    }
    None
}

/// The position of the first entry of `list` equal to `target`.
pub fn position_of(list: &Vec<String>, target: &str) -> (r: Option<usize>)
    ensures
        match r {
            Some(k) => k < list.len() && list@[k as int]@ == target@ && forall|j: int|
                0 <= j < k ==> #[trigger] list@[j]@ != target@,
            None => forall|j: int| 0 <= j < list.len() ==> #[trigger] list@[j]@ != target@,
        },
{
    let mut i: usize = 0;
    while i < list.len()
        invariant
            i <= list.len(),
            forall|j: int| 0 <= j < i ==> #[trigger] list@[j]@ != target@,
        decreases list.len() - i,
    {
        if crate::text::str_eq(list[i].as_str(), target) {
            return Some(i);
        }
        i = i + 1;
    }
    None
}

// ---------------------------------------------------------------------------
// The profile written for a new Wi-Fi network
// ---------------------------------------------------------------------------

/// One setting value of a connection profile.
pub enum SettingValue {
    Text(String),
    Flag(bool),
    Bytes(Vec<u8>),
}

/// The mathematical value of a [`SettingValue`].
pub enum SettingValueView {
    Text(Seq<char>),
    Flag(bool),
    Bytes(Seq<u8>),
}

impl View for SettingValue {
    type V = SettingValueView;

    open spec fn view(&self) -> SettingValueView {
        match self {
            SettingValue::Text(s) => SettingValueView::Text(s@),
            SettingValue::Flag(b) => SettingValueView::Flag(*b),
            SettingValue::Bytes(b) => SettingValueView::Bytes(b@),
        }
    }
}

/// One named setting.
pub struct Setting {
    pub key: String,
    pub value: SettingValue,
}

/// A group of settings (a "setting" in NetworkManager's terms).
pub struct SettingGroup {
    pub name: String,
    pub settings: Vec<Setting>,
}

/// The mathematical value of a [`SettingGroup`]: its name and its settings.
pub struct SettingGroupView {
    pub name: Seq<char>,
    pub settings: Seq<(Seq<char>, SettingValueView)>,
}

impl View for SettingGroup {
    type V = SettingGroupView;

    open spec fn view(&self) -> SettingGroupView {
        SettingGroupView {
            name: self.name@,
            settings: self.settings@.map_values(|s: Setting| (s.key@, s.value@)),
        }
    }
}

/// The views of a list of groups.
pub open spec fn group_views(g: Seq<SettingGroup>) -> Seq<SettingGroupView> {
    g.map_values(|x: SettingGroup| x@)
}

/// The profile for joining `ssid`: an auto-connecting Wi-Fi profile named by
/// the SSID with the given UUID; infrastructure mode, marked hidden when the
/// network does not broadcast its SSID; WPA-PSK with open authentication when
/// there is a password; automatic IPv4; IPv6 ignored.
pub open spec fn wifi_profile(ssid: Seq<char>, password: Option<Seq<char>>, hidden: bool, uuid: Seq<char>) -> Seq<SettingGroupView> {
    let connection = SettingGroupView {
        name: "connection"@,
        settings: seq![
            ("type"@, SettingValueView::Text("802-11-wireless"@)),
            ("id"@, SettingValueView::Text(ssid)),
            ("uuid"@, SettingValueView::Text(uuid)),
            ("autoconnect"@, SettingValueView::Flag(true)),
        ],
    };
    let base_wireless = seq![
        ("ssid"@, SettingValueView::Bytes(encode_utf8(ssid))),
        ("mode"@, SettingValueView::Text("infrastructure"@)),
    ];
    let wireless = SettingGroupView {
        name: "802-11-wireless"@,
        settings: if hidden { base_wireless.push(("hidden"@, SettingValueView::Flag(true))) } else { base_wireless },
    };
    let ipv4 = SettingGroupView { name: "ipv4"@, settings: seq![("method"@, SettingValueView::Text("auto"@))] };
    let ipv6 = SettingGroupView { name: "ipv6"@, settings: seq![("method"@, SettingValueView::Text("ignore"@))] };
    match password {
        Some(pw) => seq![
            connection,
            wireless,
            SettingGroupView {
                name: "802-11-wireless-security"@,
                settings: seq![
                    ("key-mgmt"@, SettingValueView::Text("wpa-psk"@)),
                    ("auth-alg"@, SettingValueView::Text("open"@)),
                    ("psk"@, SettingValueView::Text(pw)),
                ],
            },
            ipv4,
            ipv6,
        ],
        None => seq![connection, wireless, ipv4, ipv6],
    }
}

fn text_setting(key: &str, value: &str) -> (s: Setting)
    ensures
        s.key@ == key@,
        s.value@ == SettingValueView::Text(value@),
{
    Setting { key: owned(key), value: SettingValue::Text(owned(value)) }
}

fn flag_setting(key: &str, value: bool) -> (s: Setting)
    ensures
        s.key@ == key@,
        s.value@ == SettingValueView::Flag(value),
{
    Setting { key: owned(key), value: SettingValue::Flag(value) }
}

fn bytes_of(s: &str) -> (v: Vec<u8>)
    ensures
        v@ == encode_utf8(s@),
{
    let b = s.as_bytes();
    let mut v: Vec<u8> = Vec::new();
    let mut i: usize = 0;
    while i < b.len()
        invariant
            i <= b.len(),
            v@ == b@.subrange(0, i as int),
        decreases b.len() - i,
    {
        v.push(b[i]);
        i = i + 1;
    }
    assert(v@ =~= b@);
    v
}

/// The profile for joining `ssid` with the given UUID (see [`wifi_profile`]).
pub fn wifi_profile_with_uuid(ssid: &str, password: Option<&str>, hidden: bool, uuid: &str) -> (g: Vec<SettingGroup>)
    ensures
        group_views(g@) == wifi_profile(ssid@, match password { Some(p) => Some(p@), None => None }, hidden, uuid@),
{
    let mut connection: Vec<Setting> = Vec::new();
    connection.push(text_setting("type", "802-11-wireless"));
    connection.push(text_setting("id", ssid));
    connection.push(text_setting("uuid", uuid));
    connection.push(flag_setting("autoconnect", true));
    let mut wireless: Vec<Setting> = Vec::new();
    wireless.push(Setting { key: owned("ssid"), value: SettingValue::Bytes(bytes_of(ssid)) });
    wireless.push(text_setting("mode", "infrastructure"));
    if hidden {
        wireless.push(flag_setting("hidden", true));
    }
    let mut ipv4: Vec<Setting> = Vec::new();
    ipv4.push(text_setting("method", "auto"));
    let mut ipv6: Vec<Setting> = Vec::new();
    ipv6.push(text_setting("method", "ignore"));
    let mut groups: Vec<SettingGroup> = Vec::new();
    groups.push(SettingGroup { name: owned("connection"), settings: connection });
    groups.push(SettingGroup { name: owned("802-11-wireless"), settings: wireless });
    match password {
        Some(pw) => {
            let mut sec: Vec<Setting> = Vec::new();
            sec.push(text_setting("key-mgmt", "wpa-psk"));
            sec.push(text_setting("auth-alg", "open"));
            sec.push(text_setting("psk", pw));
            groups.push(SettingGroup { name: owned("802-11-wireless-security"), settings: sec });
        },
        None => {},
    }
    groups.push(SettingGroup { name: owned("ipv4"), settings: ipv4 });
    groups.push(SettingGroup { name: owned("ipv6"), settings: ipv6 });
    let ghost pw = match password { Some(p) => Some(p@), None => None };
    proof {
        let want = wifi_profile(ssid@, pw, hidden, uuid@);
        let got = group_views(groups@);
        assert(got.len() == want.len());
        assert forall|i: int| 0 <= i < got.len() implies got[i] == want[i] by {
            assert(got[i] == groups@[i]@);
            assert(groups@[i]@.settings =~= want[i].settings);
        }
        assert(got =~= want);
    }
    groups
}

/// `c` is a lower-case hexadecimal digit.
pub open spec fn lower_hex_digit(c: char) -> bool {
    (0x30 <= (c as u32) && (c as u32) <= 0x39) || (0x61 <= (c as u32) && (c as u32) <= 0x66)
}

/// `u` is the hyphenated lower-case text of a random (version 4, RFC 4122
/// variant) UUID: 36 characters, hyphens at 8, 13, 18 and 23, lower-case
/// hexadecimal digits elsewhere, the version digit `4` at 14 and one of
/// `8`, `9`, `a`, `b` at 19.
pub open spec fn is_v4_uuid_text(u: Seq<char>) -> bool {
    &&& u.len() == 36
    &&& forall|i: int|
        0 <= i < 36 ==> if i == 8 || i == 13 || i == 18 || i == 23 {
            #[trigger] u[i] == '-'
        } else {
            lower_hex_digit(u[i])
        }
    &&& u[14] == '4'
    &&& (u[19] == '8' || u[19] == '9' || u[19] == 'a' || u[19] == 'b')
}

/// The text of a fresh random UUID from `uuid::Uuid::new_v4`, written by its
/// `Display` (hyphenated, lower case). Claimed: its shape (see
/// [`is_v4_uuid_text`]); `new_v4` sets the version nibble to 4 and the top
/// bits of the variant nibble to `10`, and draws the other bits at random,
/// so nothing more is stated of the value.
#[verifier::external_body]
fn new_uuid_text() -> (u: String)
    ensures
        is_v4_uuid_text(u@),
{
    uuid::Uuid::new_v4().to_string()
}

/// The profile for joining `ssid` (see [`wifi_profile`]) with a fresh
/// random UUID.
pub fn wifi_profile_for(ssid: &str, password: Option<&str>, hidden: bool) -> (g: Vec<SettingGroup>)
    ensures
        exists|uuid: Seq<char>| is_v4_uuid_text(uuid) && group_views(g@) == wifi_profile(ssid@, match password { Some(p) => Some(p@), None => None }, hidden, uuid),
{
    let uuid = new_uuid_text();
    wifi_profile_with_uuid(ssid, password, hidden, uuid.as_str())
}

/// A profile written by [`wifi_profile_for`] and read back as a stored
/// profile carries the SSID as its id and its wireless SSID.
pub open spec fn stored_profile(ssid: Seq<char>, path: Seq<char>) -> ConnectionSettingsView {
    ConnectionSettingsView {
        path: path,
        id: Some(ssid),
        conn_type: Some("802-11-wireless"@),
        autoconnect: Some(true),
        interface_name: None,
        wireless_ssid: Some(encode_utf8(ssid)),
    }
}

/// A network joined once is recognised as saved afterwards: the stored
/// profile written for it matches its SSID.
pub proof fn lemma_joined_network_is_saved(ssid: Seq<char>, path: Seq<char>)
    ensures
        profile_matches(stored_profile(ssid, path), ssid),
{
}

// ---------------------------------------------------------------------------
// Rewriting a stored profile's auto-connect setting
// ---------------------------------------------------------------------------

/// The keys of a settings group as texts, the values as they are.
pub open spec fn entries_view<V>(es: Seq<(String, V)>) -> Seq<(Seq<char>, V)> {
    es.map_values(|e: (String, V)| (e.0@, e.1))
}

/// The groups of a stored profile, names and keys as texts.
pub open spec fn groups_view<V>(gs: Seq<(String, Vec<(String, V)>)>) -> Seq<(Seq<char>, Seq<(Seq<char>, V)>)> {
    gs.map_values(|g: (String, Vec<(String, V)>)| (g.0@, entries_view(g.1@)))
}

/// Position `i` is the first in `s` named `name`.
pub open spec fn first_named<T>(s: Seq<(Seq<char>, T)>, name: Seq<char>, i: int) -> bool {
    &&& 0 <= i < s.len()
    &&& s[i].0 == name
    &&& forall|j: int| 0 <= j < i ==> #[trigger] s[j].0 != name
}

/// The entries of a group with `autoconnect` set to `flag`: the first
/// `autoconnect` entry takes the new value in place; without one, the entry
/// is added at the end.
pub open spec fn entries_with_flag<V>(es: Seq<(Seq<char>, V)>, flag: V) -> Seq<(Seq<char>, V)> {
    if exists|k: int| first_named(es, "autoconnect"@, k) {
        let k = choose|k: int| first_named(es, "autoconnect"@, k);
        es.update(k, ("autoconnect"@, flag))
    } else {
        es.push(("autoconnect"@, flag))
    }
}

/// A stored profile with its auto-connect setting replaced: every group is
/// kept as it is, in order, except the first `connection` group, whose
/// `autoconnect` entry becomes `flag` (see [`entries_with_flag`]); a
/// profile without a `connection` group is kept unchanged.
pub open spec fn with_autoconnect_spec<V>(
    gs: Seq<(Seq<char>, Seq<(Seq<char>, V)>)>,
    flag: V,
) -> Seq<(Seq<char>, Seq<(Seq<char>, V)>)> {
    if exists|c: int| first_named(gs, "connection"@, c) {
        let c = choose|c: int| first_named(gs, "connection"@, c);
        gs.update(c, (gs[c].0, entries_with_flag(gs[c].1, flag)))
    } else {
        gs
    }
}

/// Two first positions for the same name are the same position.
proof fn lemma_first_named_unique<T>(s: Seq<(Seq<char>, T)>, name: Seq<char>, i: int, j: int)
    requires
        first_named(s, name, i),
        first_named(s, name, j),
    ensures
        i == j,
{
    if i < j {
        assert(s[i].0 != name);
    } else if j < i {
        assert(s[j].0 != name);
    }
}

/// The first position of `s` whose name is `name`.
fn find_named<T>(s: &Vec<(String, T)>, name: &str) -> (r: Option<usize>)
    ensures
        match r {
            Some(i) => i < s.len() && s@[i as int].0@ == name@ && forall|j: int|
                0 <= j < i ==> #[trigger] s@[j].0@ != name@,
            None => forall|j: int| 0 <= j < s.len() ==> #[trigger] s@[j].0@ != name@,
        },
{
    let mut i: usize = 0;
    while i < s.len()
        invariant
            i <= s.len(),
            forall|j: int| 0 <= j < i ==> #[trigger] s@[j].0@ != name@,
        decreases s.len() - i,
    {
        if crate::text::str_eq(s[i].0.as_str(), name) {
            return Some(i);
        }
        i = i + 1;
    }
    None
}

/// The entries of a group with `autoconnect` set to `flag` (see
/// [`entries_with_flag`]).
fn set_flag_entry<V>(es: Vec<(String, V)>, flag: V) -> (r: Vec<(String, V)>)
    ensures
        entries_view(r@) == entries_with_flag(entries_view(es@), flag),
{
    let ghost ev = entries_view(es@);
    let mut es = es;
    match find_named(&es, "autoconnect") {
        Some(k) => {
            proof {
                assert(first_named(ev, "autoconnect"@, k as int)) by {
                    assert forall|j: int| 0 <= j < k implies #[trigger] ev[j].0 != "autoconnect"@ by {
                        assert(ev[j].0 == es@[j].0@);
                    }
                }
                let c = choose|c: int| first_named(ev, "autoconnect"@, c);
                lemma_first_named_unique(ev, "autoconnect"@, c, k as int);
            }
            es.set(k, (owned("autoconnect"), flag));
            assert(entries_view(es@) =~= ev.update(k as int, ("autoconnect"@, flag)));
        },
        None => {
            proof {
                assert forall|k: int| !first_named(ev, "autoconnect"@, k) by {
                    if 0 <= k < ev.len() {
                        assert(ev[k].0 == es@[k].0@);
                    }
                }
            }
            es.push((owned("autoconnect"), flag));
            assert(entries_view(es@) =~= ev.push(("autoconnect"@, flag)));
        },
    }
    es
}

/// A stored profile, read as groups of named entries, with its
/// auto-connect setting replaced by `flag` (see [`with_autoconnect_spec`]).
pub fn with_autoconnect<V>(groups: Vec<(String, Vec<(String, V)>)>, flag: V) -> (r: Vec<
    (String, Vec<(String, V)>),
>)
    ensures
        groups_view(r@) == with_autoconnect_spec(groups_view(groups@), flag),
{
    let ghost gv = groups_view(groups@);
    let mut groups = groups;
    match find_named(&groups, "connection") {
        None => {
            proof {
                assert forall|c: int| !first_named(gv, "connection"@, c) by {
                    if 0 <= c < gv.len() {
                        assert(gv[c].0 == groups@[c].0@);
                    }
                }
            }
            groups
        },
        Some(c) => {
            proof {
                assert(first_named(gv, "connection"@, c as int)) by {
                    assert forall|j: int| 0 <= j < c implies #[trigger] gv[j].0 != "connection"@ by {
                        assert(gv[j].0 == groups@[j].0@);
                    }
                }
                let d = choose|d: int| first_named(gv, "connection"@, d);
                lemma_first_named_unique(gv, "connection"@, d, c as int);
            }
            let ghost before = groups@;
            let (name, entries) = groups.remove(c);
            assert(entries_view(entries@) == gv[c as int].1);
            let entries = set_flag_entry(entries, flag);
            groups.insert(c, (name, entries));
            assert(groups_view(groups@) =~= gv.update(c as int, (gv[c as int].0, entries_with_flag(gv[c as int].1, flag)))) by {
                assert forall|j: int| 0 <= j < gv.len() implies #[trigger] groups_view(groups@)[j] == gv.update(c as int, (gv[c as int].0, entries_with_flag(gv[c as int].1, flag)))[j] by {
                    if j != c {
                        assert(groups@[j] == before[j]);
                    }
                }
            }
            groups
        },
    }
}

} // verus!
