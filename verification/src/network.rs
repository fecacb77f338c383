//! Stored connection profiles and the records the panel builds from them:
//! saved Wi-Fi networks, VPN profiles, wired profiles and connection details.

use vstd::prelude::*;
use vstd::string::*;
use crate::scan::has_position;
use crate::text::{seq_less, lemma_seq_less_trans, lemma_seq_less_total, str_less};

verus! {

// ---------------------------------------------------------------------------
// Stored connection profiles
// ---------------------------------------------------------------------------

/// What the panel reads from one stored connection profile. `None` marks a
/// setting that is absent or not of the expected type.
pub struct ConnectionSettings {
    /// Object path of the profile.
    pub path: String,
    /// `connection.id`.
    pub id: Option<String>,
    /// `connection.type`.
    pub conn_type: Option<String>,
    /// `connection.autoconnect`.
    pub autoconnect: Option<bool>,
    /// `connection.interface-name`.
    pub interface_name: Option<String>,
    /// `802-11-wireless.ssid`: the bytes of the setting when it is present
    /// (empty when it is not a byte array).
    pub wireless_ssid: Option<Vec<u8>>,
}

/// The mathematical value of a [`ConnectionSettings`].
pub struct ConnectionSettingsView {
    pub path: Seq<char>,
    pub id: Option<Seq<char>>,
    pub conn_type: Option<Seq<char>>,
    pub autoconnect: Option<bool>,
    pub interface_name: Option<Seq<char>>,
    pub wireless_ssid: Option<Seq<u8>>,
}

/// The optional text as a value.
pub open spec fn opt_view(o: Option<String>) -> Option<Seq<char>> {
    match o {
        Some(s) => Some(s@),
        None => None,
    }
}

impl View for ConnectionSettings {
    type V = ConnectionSettingsView;

    open spec fn view(&self) -> ConnectionSettingsView {
        ConnectionSettingsView {
            path: self.path@,
            id: opt_view(self.id),
            conn_type: opt_view(self.conn_type),
            autoconnect: self.autoconnect,
            interface_name: opt_view(self.interface_name),
            wireless_ssid: match self.wireless_ssid {
                Some(b) => Some(b@),
                None => None,
            },
        }
    }
}

/// The views of a list of profiles.
pub open spec fn settings_views(s: Seq<ConnectionSettings>) -> Seq<ConnectionSettingsView> {
    s.map_values(|c: ConnectionSettings| c@)
}

/// The views of a list of strings.
pub open spec fn text_views(s: Seq<String>) -> Seq<Seq<char>> {
    s.map_values(|t: String| t@)
}

/// Whether `x` is among `list`.
pub fn list_contains(list: &Vec<String>, x: &String) -> (b: bool)
    ensures
        b == text_views(list@).contains(x@),
{
    let mut i: usize = 0;
    while i < list.len()
        invariant
            i <= list.len(),
            forall|k: int| 0 <= k < i ==> list@[k]@ != x@,
        decreases list.len() - i,
    {
        if list[i] == *x {
            assert(text_views(list@)[i as int] == x@);
            return true;
        }
        i = i + 1;
    }
    assert forall|k: int| 0 <= k < text_views(list@).len() implies text_views(list@)[k] != x@ by {
        assert(text_views(list@)[k] == list@[k]@);
    }
    false
}

/// The text or the empty text.
pub open spec fn text_or_empty(o: Option<Seq<char>>) -> Seq<char> {
    match o {
        Some(t) => t,
        None => Seq::empty(),
    }
}

/// A copy of the optional string, or the empty string.
pub fn string_or_empty(o: &Option<String>) -> (s: String)
    ensures
        s@ == text_or_empty(opt_view(*o)),
{
    match o {
        Some(t) => t.clone(),
        None => String::new(),
    }
}

// ---------------------------------------------------------------------------
// Saved Wi-Fi networks
// ---------------------------------------------------------------------------

/// A stored Wi-Fi profile as listed in the saved-networks view.
#[derive(Clone, Debug)]
pub struct SavedNetwork {
    pub ssid: String,
    pub path: String,
    pub autoconnect: bool,
    pub is_active: bool,
}

/// The mathematical value of a [`SavedNetwork`].
pub struct SavedNetworkView {
    pub ssid: Seq<char>,
    pub path: Seq<char>,
    pub autoconnect: bool,
    pub is_active: bool,
}

impl View for SavedNetwork {
    type V = SavedNetworkView;

    open spec fn view(&self) -> SavedNetworkView {
        SavedNetworkView {
            ssid: self.ssid@,
            path: self.path@,
            autoconnect: self.autoconnect,
            is_active: self.is_active,
        }
    }
}

/// The views of a list of saved networks.
pub open spec fn saved_views(s: Seq<SavedNetwork>) -> Seq<SavedNetworkView> {
    s.map_values(|n: SavedNetwork| n@)
}

/// The saved-network entry of a profile: Wi-Fi profiles only, named by their
/// id, auto-connecting unless the profile says otherwise, active when their
/// path is among the active connections.
pub open spec fn saved_entry(c: ConnectionSettingsView, active: Seq<Seq<char>>) -> Option<SavedNetworkView> {
    if c.conn_type == Some("802-11-wireless"@) {
        Some(SavedNetworkView {
            ssid: text_or_empty(c.id),
            path: c.path,
            autoconnect: match c.autoconnect { Some(b) => b, None => true },
            is_active: active.contains(c.path),
        })
    } else {
        None
    }
}

/// The saved-network entries of a list of profiles, in order.
pub open spec fn saved_entries(cs: Seq<ConnectionSettingsView>, active: Seq<Seq<char>>) -> Seq<SavedNetworkView>
    decreases cs.len(),
{
    if cs.len() == 0 {
        Seq::empty()
    } else {
        let front = saved_entries(cs.drop_last(), active);
        match saved_entry(cs.last(), active) {
            Some(e) => front.push(e),
            None => front,
        }
    }
}

/// Active networks come first, then networks in SSID order.
pub open spec fn saved_key_less(a: SavedNetworkView, b: SavedNetworkView) -> bool {
    (a.is_active && !b.is_active) || (a.is_active == b.is_active && seq_less(a.ssid, b.ssid))
}

/// Entry `i` of `c` is listed before entry `j`: by [`saved_key_less`], the
/// original order deciding between equal keys.
pub open spec fn saved_before(c: Seq<SavedNetworkView>, i: int, j: int) -> bool {
    saved_key_less(c[i], c[j]) || (c[i].is_active == c[j].is_active && c[i].ssid == c[j].ssid && i < j)
}

/// `k` occurs among `idx`.
pub open spec fn has_index(idx: Seq<int>, k: int) -> bool {
    exists|p: int| 0 <= p < idx.len() && idx[p] == k
}

/// `o` lists the entries of `c` in the order [`saved_before`], `idx` giving
/// for each listed entry its position in `c`.
pub open spec fn is_saved_order(c: Seq<SavedNetworkView>, o: Seq<SavedNetworkView>, idx: Seq<int>) -> bool {
    &&& o.len() == c.len()
    &&& idx.len() == c.len()
    &&& forall|p: int| 0 <= p < idx.len() ==> 0 <= #[trigger] idx[p] < c.len()
    &&& forall|k: int| 0 <= k < c.len() ==> #[trigger] has_index(idx, k)
    &&& forall|p: int| 0 <= p < o.len() ==> #[trigger] o[p] == c[idx[p]]
    &&& forall|p: int, q: int| 0 <= p < q < o.len() ==> saved_before(c, #[trigger] idx[p], #[trigger] idx[q])
}

proof fn lemma_saved_key_total(a: SavedNetworkView, b: SavedNetworkView)
    ensures
        saved_key_less(a, b) || saved_key_less(b, a) || (a.is_active == b.is_active && a.ssid == b.ssid),
{
    lemma_seq_less_total(a.ssid, b.ssid);
}

proof fn lemma_saved_key_trans(a: SavedNetworkView, b: SavedNetworkView, c: SavedNetworkView)
    requires
        saved_key_less(a, b),
        saved_key_less(b, c) || (b.is_active == c.is_active && b.ssid == c.ssid),
    ensures
        saved_key_less(a, c),
{
    if a.is_active == b.is_active && b.is_active == c.is_active && seq_less(b.ssid, c.ssid) {
        lemma_seq_less_trans(a.ssid, b.ssid, c.ssid);
    }
}

/// A copy of `n`.
pub fn copy_saved(n: &SavedNetwork) -> (r: SavedNetwork)
    ensures
        r@ == n@,
{
    SavedNetwork {
        ssid: n.ssid.clone(),
        path: n.path.clone(),
        autoconnect: n.autoconnect,
        is_active: n.is_active,
    }
}

fn saved_key_less_exec(a: &SavedNetwork, b: &SavedNetwork) -> (r: bool)
    ensures
        r == saved_key_less(a@, b@),
{
    (a.is_active && !b.is_active) || (a.is_active == b.is_active && str_less(a.ssid.as_str(), b.ssid.as_str()))
}

/// The saved-network entry of one profile (see [`saved_entry`]).
pub fn saved_entry_of(c: &ConnectionSettings, active_paths: &Vec<String>) -> (r: Option<SavedNetwork>)
    ensures
        match r {
            Some(n) => saved_entry(c@, text_views(active_paths@)) == Some(n@),
            None => saved_entry(c@, text_views(active_paths@)) is None,
        },
{
    let is_wifi = match &c.conn_type {
        Some(t) => crate::text::str_eq(t.as_str(), "802-11-wireless"),
        None => false,
    };
    if !is_wifi {
        return None;
    }
    Some(SavedNetwork {
        ssid: string_or_empty(&c.id),
        path: c.path.clone(),
        autoconnect: match c.autoconnect { Some(b) => b, None => true },
        is_active: list_contains(active_paths, &c.path),
    })
}

/// The saved Wi-Fi networks among the stored profiles (see [`saved_entry`]),
/// active ones first, then by SSID, the profile order deciding between equal
/// keys.
pub fn saved_networks(conns: &Vec<ConnectionSettings>, active_paths: &Vec<String>) -> (o: Vec<SavedNetwork>)
    ensures
        exists|idx: Seq<int>| is_saved_order(saved_entries(settings_views(conns@), text_views(active_paths@)), saved_views(o@), idx),
{
    let ghost act = text_views(active_paths@);
    let mut c: Vec<SavedNetwork> = Vec::new();
    let mut i: usize = 0;
    while i < conns.len()
        invariant
            i <= conns.len(),
            act == text_views(active_paths@),
            saved_views(c@) == saved_entries(settings_views(conns@).take(i as int), act),
        decreases conns.len() - i,
    {
        let ghost before = saved_views(c@);
        let e = saved_entry_of(&conns[i], active_paths);
        proof {
            let t = settings_views(conns@).take(i + 1);
            assert(t.drop_last() =~= settings_views(conns@).take(i as int));
            assert(t.last() == conns@[i as int]@);
        }
        match e {
            Some(n) => {
                c.push(n);
                assert(saved_views(c@) =~= before.push(c@.last()@));
            }
            None => {}
        }
        i = i + 1;
    }
    assert(settings_views(conns@).take(conns.len() as int) =~= settings_views(conns@));
    let ghost cv = saved_views(c@);
    // insertion sort of positions
    let mut order: Vec<usize> = Vec::new();
    let mut j: usize = 0;
    while j < c.len()
        invariant
            cv == saved_views(c@),
            j <= c.len(),
            order.len() == j,
            forall|p: int| 0 <= p < order.len() ==> #[trigger] order[p] < j,
            forall|k: int| 0 <= k < j ==> #[trigger] has_position(order@, k),
            forall|p: int, q: int| 0 <= p < q < order.len() ==> saved_before(cv, #[trigger] order[p] as int, #[trigger] order[q] as int),
        decreases c.len() - j,
    {
        let mut pos: usize = 0;
        while pos < order.len() && !saved_key_less_exec(&c[j], &c[order[pos]])
            invariant
                cv == saved_views(c@),
                j < c.len(),
                pos <= order.len(),
                forall|p: int| 0 <= p < order.len() ==> #[trigger] order[p] < j,
                forall|p: int| 0 <= p < pos ==> !saved_key_less(cv[j as int], cv[#[trigger] order[p] as int]),
            decreases order.len() - pos,
        {
            pos = pos + 1;
        }
        let ghost old_order = order@;
        order.insert(pos, j);
        proof {
            assert forall|p: int| 0 <= p < order.len() implies #[trigger] order[p] < j + 1 by {
                if p < pos {
                    assert(order[p] == old_order[p]);
                } else if p > pos {
                    assert(order[p] == old_order[p - 1]);
                }
            }
            assert forall|k: int| 0 <= k < j + 1 implies #[trigger] has_position(order@, k) by {
                if k == j {
                    assert(order@[pos as int] as int == k);
                } else {
                    assert(has_position(old_order, k));
                    let t = choose|p: int| 0 <= p < old_order.len() && old_order[p] == k;
                    if t < pos {
                        assert(order@[t] as int == k);
                    } else {
                        assert(order@[t + 1] as int == k);
                    }
                }
            }
            assert forall|p: int, q: int| 0 <= p < q < order.len() implies saved_before(cv, #[trigger] order[p] as int, #[trigger] order[q] as int) by {
                if q < pos {
                    assert(order[p] == old_order[p] && order[q] == old_order[q]);
                } else if q == pos {
                    assert(order[p] == old_order[p]);
                    lemma_saved_key_total(cv[j as int], cv[old_order[p] as int]);
                } else if p > pos {
                    assert(order[p] == old_order[p - 1] && order[q] == old_order[q - 1]);
                } else if p == pos {
                    assert(order[q] == old_order[q - 1]);
                    let x = old_order[pos as int] as int;
                    let y = old_order[q - 1] as int;
                    if q - 1 > pos {
                        assert(saved_before(cv, x, y));
                        lemma_saved_key_trans(cv[j as int], cv[x], cv[y]);
                    }
                } else {
                    assert(order[p] == old_order[p] && order[q] == old_order[q - 1]);
                }
            }
        }
        j = j + 1;
    }
    let mut o: Vec<SavedNetwork> = Vec::new();
    let mut t: usize = 0;
    while t < order.len()
        invariant
            cv == saved_views(c@),
            order.len() == c.len(),
            forall|p: int| 0 <= p < order.len() ==> #[trigger] order[p] < c.len(),
            t <= order.len(),
            o.len() == t,
            forall|p: int| 0 <= p < t ==> #[trigger] o@[p]@ == cv[order[p] as int],
        decreases order.len() - t,
    {
        o.push(copy_saved(&c[order[t]]));
        t = t + 1;
    }
    proof {
        let idx = order@.map_values(|x: usize| x as int);
        let ov = saved_views(o@);
        assert forall|p: int| 0 <= p < ov.len() implies #[trigger] ov[p] == cv[idx[p]] by {
            assert(ov[p] == o@[p]@);
        }
        assert forall|k: int| 0 <= k < cv.len() implies #[trigger] has_index(idx, k) by {
            assert(has_position(order@, k));
            let p = choose|p: int| 0 <= p < order.len() && order@[p] == k;
            assert(idx[p] == k);
        }
        assert forall|p: int, q: int| 0 <= p < q < ov.len() implies saved_before(cv, #[trigger] idx[p], #[trigger] idx[q]) by {
            assert(saved_before(cv, order[p] as int, order[q] as int));
        }
        assert(is_saved_order(cv, ov, idx));
    }
    o
}

} // verus!
