//! Wi-Fi scan results: the access-point record, its security class, and the
//! merge that turns raw scan entries into the list the panel shows.

use vstd::prelude::*;
use vstd::string::*;
use crate::text::{lossy_text, utf8_lossy};

verus! {

/// Security class of an access point, from its capability flags.
#[derive(Clone, Copy, Debug, PartialEq, Eq, Structural)]
pub enum SecurityType {
    Open,
    WEP,
    WPA,
    WPA2,
    WPA3,
}

/// One visible Wi-Fi network.
#[derive(Clone, Debug)]
pub struct AccessPoint {
    pub ssid: String,
    pub signal_strength: u8,
    pub security: SecurityType,
    pub is_connected: bool,
    pub device_path: String,
    pub path: String,
}

/// The mathematical value of an [`AccessPoint`].
pub struct AccessPointView {
    pub ssid: Seq<char>,
    pub signal_strength: u8,
    pub security: SecurityType,
    pub is_connected: bool,
    pub device_path: Seq<char>,
    pub path: Seq<char>,
}

impl View for AccessPoint {
    type V = AccessPointView;

    open spec fn view(&self) -> AccessPointView {
        AccessPointView {
            ssid: self.ssid@,
            signal_strength: self.signal_strength,
            security: self.security,
            is_connected: self.is_connected,
            device_path: self.device_path@,
            path: self.path@,
        }
    }
}

/// A copy of `ap`.
pub fn copy_access_point(ap: &AccessPoint) -> (r: AccessPoint)
    ensures
        r@ == ap@,
{
    AccessPoint {
        ssid: ap.ssid.clone(),
        signal_strength: ap.signal_strength,
        security: ap.security,
        is_connected: ap.is_connected,
        device_path: ap.device_path.clone(),
        path: ap.path.clone(),
    }
}

/// The security class for the `Flags`, `WpaFlags` and `RsnFlags` properties:
/// the RSN SAE key-management bit (`0x400`) means WPA3, any other RSN bit
/// (such as PSK, `0x100`) WPA2, WPA bits WPA, the privacy flag WEP, and
/// nothing at all an open network.
pub open spec fn spec_security(flags: u32, wpa_flags: u32, rsn_flags: u32) -> SecurityType {
    if rsn_flags & 0x400 != 0 {
        SecurityType::WPA3
    } else if rsn_flags != 0 {
        SecurityType::WPA2
    } else if wpa_flags != 0 {
        SecurityType::WPA
    } else if flags != 0 {
        SecurityType::WEP
    } else {
        SecurityType::Open
    }
}

/// Classifies an access point's security from its flag properties.
pub fn security_from_flags(flags: u32, wpa_flags: u32, rsn_flags: u32) -> (t: SecurityType)
    ensures
        t == spec_security(flags, wpa_flags, rsn_flags),
{
    if rsn_flags & 0x400 != 0 {
        SecurityType::WPA3
    } else if rsn_flags != 0 {
        SecurityType::WPA2
    } else if wpa_flags != 0 {
        SecurityType::WPA
    } else if flags != 0 {
        SecurityType::WEP
    } else {
        SecurityType::Open
    }
}

// ---------------------------------------------------------------------------
// Merging scan entries
// ---------------------------------------------------------------------------

/// The views of a list of access points.
pub open spec fn views(s: Seq<AccessPoint>) -> Seq<AccessPointView> {
    s.map_values(|a: AccessPoint| a@)
}

/// Entry `i` of `s` comes before entry `j` when entries are ordered by signal
/// strength, strongest first, keeping the scan order among equal strengths.
pub open spec fn ranks_before(s: Seq<AccessPointView>, i: int, j: int) -> bool {
    s[i].signal_strength > s[j].signal_strength || (s[i].signal_strength
        == s[j].signal_strength && i < j)
}

/// Entry `j` is the one kept for its SSID: it ranks before every other entry
/// with the same SSID.
pub open spec fn is_kept(s: Seq<AccessPointView>, j: int) -> bool {
    &&& 0 <= j < s.len()
    &&& forall|k: int|
        0 <= k < s.len() && k != j && #[trigger] s[k].ssid == s[j].ssid ==> ranks_before(s, j, k)
}

/// Some entry with this SSID is the connected one.
pub open spec fn any_connected(s: Seq<AccessPointView>, ssid: Seq<char>) -> bool {
    exists|k: int| 0 <= k < s.len() && #[trigger] s[k].ssid == ssid && s[k].is_connected
}

/// The entry shown for kept entry `j`: the entry itself, marked connected when
/// any entry with its SSID is connected.
pub open spec fn shown(s: Seq<AccessPointView>, j: int) -> AccessPointView {
    AccessPointView { is_connected: any_connected(s, s[j].ssid), ..s[j] }
}

/// `o` is the merged list of the scan entries `s`: one entry per SSID (the
/// strongest, the earliest among equally strong ones), connected if any entry
/// with that SSID is, ordered strongest first with scan order breaking ties.
pub open spec fn is_merge_of(s: Seq<AccessPointView>, o: Seq<AccessPointView>, kept: Seq<int>) -> bool {
    &&& kept.len() == o.len()
    &&& forall|p: int| 0 <= p < o.len() ==> is_kept(s, #[trigger] kept[p])
    &&& forall|p: int| 0 <= p < o.len() ==> o[p] == shown(s, #[trigger] kept[p])
    &&& forall|p: int, q: int| 0 <= p < q < o.len() ==> ranks_before(s, #[trigger] kept[p], #[trigger] kept[q])
    &&& forall|i: int| 0 <= i < s.len() ==> lists_ssid(o, #[trigger] s[i].ssid)
}

/// No SSID occurs twice in `o`.
pub open spec fn distinct_ssids(o: Seq<AccessPointView>) -> bool {
    forall|p: int, q: int| 0 <= p < q < o.len() ==> #[trigger] o[p].ssid != #[trigger] o[q].ssid
}

/// `k` occurs among the positions `o`.
pub open spec fn has_position(o: Seq<usize>, k: int) -> bool {
    exists|p: int| 0 <= p < o.len() && o[p] == k
}

/// Positions of `s` ordered strongest first (a permutation of `0..s.len()`).
fn order_by_signal(s: &Vec<AccessPoint>) -> (order: Vec<usize>)
    ensures
        order.len() == s.len(),
        forall|p: int| 0 <= p < order.len() ==> #[trigger] order[p] < s.len(),
        forall|k: int| 0 <= k < s.len() ==> #[trigger] has_position(order@, k),
        forall|p: int, q: int| 0 <= p < q < order.len() ==> ranks_before(views(s@), #[trigger] order[p] as int, #[trigger] order[q] as int),
{
    let ghost v = views(s@);
    let mut order: Vec<usize> = Vec::new();
    let mut i: usize = 0;
    while i < s.len()
        invariant
            v == views(s@),
            i <= s.len(),
            order.len() == i,
            forall|p: int| 0 <= p < order.len() ==> #[trigger] order[p] < i,
            forall|k: int| 0 <= k < i ==> #[trigger] has_position(order@, k),
            forall|p: int, q: int| 0 <= p < q < order.len() ==> ranks_before(v, #[trigger] order[p] as int, #[trigger] order[q] as int),
        decreases s.len() - i,
    {
        let sig = s[i].signal_strength;
        let mut pos: usize = 0;
        while pos < order.len() && s[order[pos]].signal_strength >= sig
            invariant
                v == views(s@),
                i < s.len(),
                sig == v[i as int].signal_strength,
                pos <= order.len(),
                forall|p: int| 0 <= p < order.len() ==> #[trigger] order[p] < i,
                forall|p: int| 0 <= p < pos ==> v[#[trigger] order[p] as int].signal_strength >= sig,
            decreases order.len() - pos,
        {
            pos = pos + 1;
        }
        let ghost old_order = order@;
        order.insert(pos, i);
        proof {
            assert forall|p: int| 0 <= p < order.len() implies #[trigger] order[p] < i + 1 by {
                if p < pos {
                    assert(order[p] == old_order[p]);
                } else if p > pos {
                    assert(order[p] == old_order[p - 1]);
                }
            }
            assert forall|k: int| 0 <= k < i + 1 implies #[trigger] has_position(order@, k) by {
                if k == i {
                    assert(order[pos as int] == k);
                } else {
                    assert(has_position(old_order, k));
                    let t = choose|p: int| 0 <= p < old_order.len() && old_order[p] == k;
                    if t < pos {
                        assert(order[t] == k);
                    } else {
                        assert(order[t + 1] == k);
                    }
                }
            }
            assert forall|p: int, q: int| 0 <= p < q < order.len() implies ranks_before(v, #[trigger] order[p] as int, #[trigger] order[q] as int) by {
                if q < pos {
                    assert(order[p] == old_order[p] && order[q] == old_order[q]);
                } else if q == pos {
                    assert(order[p] == old_order[p]);
                    assert(v[old_order[p] as int].signal_strength >= sig);
                } else if p > pos {
                    assert(order[p] == old_order[p - 1] && order[q] == old_order[q - 1]);
                } else if p == pos {
                    assert(order[q] == old_order[q - 1]);
                    assert(v[old_order[pos as int] as int].signal_strength < sig);
                    if q - 1 > pos {
                        assert(ranks_before(v, old_order[pos as int] as int, old_order[q - 1] as int));
                    }
                } else {
                    assert(order[p] == old_order[p] && order[q] == old_order[q - 1]);
                }
            }
        }
        i = i + 1;
    }
    order
}

/// `a` with its connected flag set to `c`.
pub open spec fn with_connected(a: AccessPointView, c: bool) -> AccessPointView {
    AccessPointView { is_connected: c, ..a }
}

/// The SSID `ssid` occurs in `o`.
pub open spec fn lists_ssid(o: Seq<AccessPointView>, ssid: Seq<char>) -> bool {
    exists|q: int| 0 <= q < o.len() && o[q].ssid == ssid
}

/// Among the first `t` positions of `order`, some entry with SSID `ssid` is connected.
spec fn connected_within(v: Seq<AccessPointView>, order: Seq<usize>, t: int, ssid: Seq<char>) -> bool {
    exists|u: int| 0 <= u < t && #[trigger] v[order[u] as int].ssid == ssid && v[order[u] as int].is_connected
}

/// The position of the first entry of `o` with SSID `ssid`.
fn find_ssid(o: &Vec<AccessPoint>, ssid: &String) -> (r: Option<usize>)
    ensures
        r matches Some(j) ==> j < o.len() && o@[j as int].ssid@ == ssid@,
        r is None ==> forall|j: int| 0 <= j < o.len() ==> #[trigger] o@[j].ssid@ != ssid@,
{
    let mut j: usize = 0;
    while j < o.len()
        invariant
            j <= o.len(),
            forall|k: int| 0 <= k < j ==> #[trigger] o@[k].ssid@ != ssid@,
        decreases o.len() - j,
    {
        if o[j].ssid == *ssid {
            return Some(j);
        }
        j = j + 1;
    }
    None
}

/// Merges scan entries: keeps one entry per SSID, the strongest (the earliest
/// of equally strong ones), marks it connected when any entry with that SSID
/// is connected, and orders the result strongest first, scan order breaking
/// ties.
pub fn merge_access_points(s: &Vec<AccessPoint>) -> (o: Vec<AccessPoint>)
    ensures
        exists|kept: Seq<int>| is_merge_of(views(s@), views(o@), kept),
        distinct_ssids(views(o@)),
{
    let ghost v = views(s@);
    let order = order_by_signal(s);
    let mut out: Vec<AccessPoint> = Vec::new();
    let ghost mut kept: Seq<int> = seq![];
    let ghost mut kpos: Seq<int> = seq![];
    let mut t: usize = 0;
    while t < order.len()
        invariant
            v == views(s@),
            v.len() == s.len(),
            order.len() == s.len(),
            forall|p: int| 0 <= p < order.len() ==> #[trigger] order[p] < s.len(),
            forall|k: int| 0 <= k < s.len() ==> #[trigger] has_position(order@, k),
            forall|p: int, q: int| 0 <= p < q < order.len() ==> ranks_before(v, #[trigger] order[p] as int, #[trigger] order[q] as int),
            t <= order.len(),
            out.len() == kept.len(),
            kpos.len() == kept.len(),
            forall|q: int| 0 <= q < kept.len() ==> 0 <= #[trigger] kpos[q] < t,
            forall|q: int| 0 <= q < kept.len() ==> order[kpos[q]] as int == #[trigger] kept[q],
            forall|q: int, u: int| 0 <= q < kept.len() && 0 <= u < kpos[q] ==> #[trigger] v[order[u] as int].ssid != v[#[trigger] kept[q]].ssid,
            forall|p: int, q: int| 0 <= p < q < kept.len() ==> #[trigger] kpos[p] < #[trigger] kpos[q],
            forall|q: int| 0 <= q < out.len() ==> #[trigger] out@[q]@ == with_connected(v[kept[q]], connected_within(v, order@, t as int, v[kept[q]].ssid)),
            forall|u: int| 0 <= u < t ==> lists_ssid(views(out@), #[trigger] v[order[u] as int].ssid),
            distinct_ssids(views(out@)),
        decreases order.len() - t,
    {
        let idx = order[t];
        let ghost vo = views(out@);
        let ghost old_out = out@;
        let found = find_ssid(&out, &s[idx].ssid);
        match found {
            None => {
                let ap = copy_access_point(&s[idx]);
                out.push(ap);
                proof {
                    assert forall|u: int| 0 <= u < t implies #[trigger] v[order[u] as int].ssid != v[idx as int].ssid by {
                        assert(lists_ssid(vo, v[order[u] as int].ssid));
                        let q = choose|q: int| 0 <= q < vo.len() && vo[q].ssid == v[order[u] as int].ssid;
                        assert(vo[q] == old_out[q]@);
                    }
                    kept = kept.push(idx as int);
                    kpos = kpos.push(t as int);
                    assert forall|q: int| 0 <= q < out.len() implies #[trigger] out@[q]@ == with_connected(v[kept[q]], connected_within(v, order@, t + 1, v[kept[q]].ssid)) by {
                        let ss = v[kept[q]].ssid;
                        if q < old_out.len() {
                            assert(out@[q] == old_out[q]);
                            assert(old_out[q].ssid@ != s@[idx as int].ssid@);
                            if connected_within(v, order@, t + 1, ss) {
                                let u = choose|u: int| 0 <= u < t + 1 && #[trigger] v[order[u] as int].ssid == ss && v[order[u] as int].is_connected;
                                assert(u < t);
                            }
                            if connected_within(v, order@, t as int, ss) {
                                let u = choose|u: int| 0 <= u < t && #[trigger] v[order[u] as int].ssid == ss && v[order[u] as int].is_connected;
                                assert(0 <= u < t + 1);
                            }
                        } else {
                            assert(kept[q] == idx);
                            if v[idx as int].is_connected {
                                assert(v[order[t as int] as int].ssid == ss);
                            }
                            if connected_within(v, order@, t + 1, ss) {
                                let u = choose|u: int| 0 <= u < t + 1 && #[trigger] v[order[u] as int].ssid == ss && v[order[u] as int].is_connected;
                                assert(u == t);
                            }
                        }
                    }
                    assert forall|u: int| 0 <= u < t + 1 implies lists_ssid(views(out@), #[trigger] v[order[u] as int].ssid) by {
                        let nv = views(out@);
                        if u < t {
                            assert(lists_ssid(vo, v[order[u] as int].ssid));
                            let q = choose|q: int| 0 <= q < vo.len() && vo[q].ssid == v[order[u] as int].ssid;
                            assert(vo[q] == old_out[q]@);
                            assert(nv[q] == out@[q]@);
                        } else {
                            assert(nv[old_out.len() as int] == out@[old_out.len() as int]@);
                        }
                    }
                    assert forall|p: int, q: int| 0 <= p < q < out.len() implies #[trigger] views(out@)[p].ssid != #[trigger] views(out@)[q].ssid by {
                        let nv = views(out@);
                        assert(nv[p] == out@[p]@ && nv[q] == out@[q]@);
                        if q < old_out.len() {
                            assert(vo[p] == old_out[p]@ && vo[q] == old_out[q]@);
                        } else {
                            assert(old_out[p].ssid@ != s@[idx as int].ssid@);
                        }
                    }
                }
            }
            Some(j) => {
                if s[idx].is_connected {
                    out[j].is_connected = true;
                }
                proof {
                    assert(old_out[j as int].ssid@ == s@[idx as int].ssid@);
                    assert forall|q: int| 0 <= q < out.len() implies #[trigger] out@[q]@ == with_connected(v[kept[q]], connected_within(v, order@, t + 1, v[kept[q]].ssid)) by {
                        let ss = v[kept[q]].ssid;
                        assert(old_out[q]@ == with_connected(v[kept[q]], connected_within(v, order@, t as int, ss)));
                        if q != j {
                            assert(vo[q] == old_out[q]@ && vo[j as int] == old_out[j as int]@);
                            assert(old_out[q].ssid@ != s@[idx as int].ssid@);
                            assert(out@[q] == old_out[q]);
                            if connected_within(v, order@, t + 1, ss) {
                                let u = choose|u: int| 0 <= u < t + 1 && #[trigger] v[order[u] as int].ssid == ss && v[order[u] as int].is_connected;
                                assert(u < t);
                            }
                            if connected_within(v, order@, t as int, ss) {
                                let u = choose|u: int| 0 <= u < t && #[trigger] v[order[u] as int].ssid == ss && v[order[u] as int].is_connected;
                                assert(0 <= u < t + 1);
                            }
                        } else {
                            if v[idx as int].is_connected {
                                assert(v[order[t as int] as int].ssid == ss);
                            }
                            if connected_within(v, order@, t as int, ss) {
                                let u = choose|u: int| 0 <= u < t && #[trigger] v[order[u] as int].ssid == ss && v[order[u] as int].is_connected;
                                assert(0 <= u < t + 1);
                            }
                            if connected_within(v, order@, t + 1, ss) && !connected_within(v, order@, t as int, ss) {
                                let u = choose|u: int| 0 <= u < t + 1 && #[trigger] v[order[u] as int].ssid == ss && v[order[u] as int].is_connected;
                                assert(u == t);
                            }
                        }
                    }
                    assert forall|u: int| 0 <= u < t + 1 implies lists_ssid(views(out@), #[trigger] v[order[u] as int].ssid) by {
                        let nv = views(out@);
                        if u < t {
                            assert(lists_ssid(vo, v[order[u] as int].ssid));
                            let q = choose|q: int| 0 <= q < vo.len() && vo[q].ssid == v[order[u] as int].ssid;
                            assert(vo[q] == old_out[q]@);
                            assert(nv[q] == out@[q]@);
                        } else {
                            assert(nv[j as int] == out@[j as int]@);
                        }
                    }
                    assert forall|p: int, q: int| 0 <= p < q < out.len() implies #[trigger] views(out@)[p].ssid != #[trigger] views(out@)[q].ssid by {
                        let nv = views(out@);
                        assert(nv[p] == out@[p]@ && nv[q] == out@[q]@);
                        assert(vo[p] == old_out[p]@ && vo[q] == old_out[q]@);
                    }
                }
            }
        }
        t = t + 1;
    }
    proof {
        let o = views(out@);
        assert forall|p: int| 0 <= p < o.len() implies is_kept(v, #[trigger] kept[p]) by {
            assert forall|k: int| 0 <= k < v.len() && k != kept[p] && #[trigger] v[k].ssid == v[kept[p]].ssid implies ranks_before(v, kept[p], k) by {
                assert(has_position(order@, k));
                let u = choose|u: int| 0 <= u < order.len() && order@[u] == k;
                if u < kpos[p] {
                    assert(v[order[u] as int].ssid != v[kept[p]].ssid);
                } else {
                    assert(u != kpos[p]);
                    assert(ranks_before(v, order[kpos[p]] as int, order[u] as int));
                }
            }
        }
        assert forall|p: int| 0 <= p < o.len() implies o[p] == shown(v, #[trigger] kept[p]) by {
            let ss = v[kept[p]].ssid;
            assert(o[p] == out@[p]@);
            if any_connected(v, ss) {
                let k = choose|k: int| 0 <= k < v.len() && #[trigger] v[k].ssid == ss && v[k].is_connected;
                assert(has_position(order@, k));
                let u = choose|u: int| 0 <= u < order.len() && order@[u] == k;
                assert(v[order[u] as int].ssid == ss);
            }
            if connected_within(v, order@, t as int, ss) {
                let u = choose|u: int| 0 <= u < t && #[trigger] v[order[u] as int].ssid == ss && v[order[u] as int].is_connected;
                let k = order[u] as int;
                assert(0 <= k < v.len() && v[k].ssid == ss && v[k].is_connected);
            }
        }
        assert forall|p: int, q: int| 0 <= p < q < o.len() implies ranks_before(v, #[trigger] kept[p], #[trigger] kept[q]) by {
            assert(kpos[p] < kpos[q]);
            assert(ranks_before(v, order[kpos[p]] as int, order[kpos[q]] as int));
        }
        assert forall|i: int| 0 <= i < v.len() implies lists_ssid(o, #[trigger] v[i].ssid) by {
            assert(has_position(order@, i));
            let u = choose|u: int| 0 <= u < order.len() && order@[u] == i;
            assert(lists_ssid(o, v[order[u] as int].ssid));
        }
        assert(is_merge_of(v, o, kept));
    }
    out
}

/// Two kept entries with the same SSID are the same entry.
proof fn lemma_kept_unique(s: Seq<AccessPointView>, i: int, j: int)
    requires
        is_kept(s, i),
        is_kept(s, j),
        s[i].ssid == s[j].ssid,
    ensures
        i == j,
{
    if i != j {
        assert(ranks_before(s, i, j));
        assert(ranks_before(s, j, i));
    }
}

/// Every kept entry of `s` has its position in the kept list of a merge.
proof fn lemma_kept_listed(s: Seq<AccessPointView>, o: Seq<AccessPointView>, k: Seq<int>, j: int)
    requires
        is_merge_of(s, o, k),
        is_kept(s, j),
    ensures
        exists|p: int| 0 <= p < k.len() && k[p] == j,
{
    assert(lists_ssid(o, s[j].ssid));
    let p = choose|p: int| 0 <= p < o.len() && o[p].ssid == s[j].ssid;
    assert(o[p] == shown(s, k[p]));
    assert(is_kept(s, k[p]));
    lemma_kept_unique(s, k[p], j);
}

/// Two merges of the same entries keep the same entries at positions `0..=p`.
proof fn lemma_kept_agree(
    s: Seq<AccessPointView>,
    o1: Seq<AccessPointView>,
    k1: Seq<int>,
    o2: Seq<AccessPointView>,
    k2: Seq<int>,
    p: int,
)
    requires
        is_merge_of(s, o1, k1),
        is_merge_of(s, o2, k2),
        0 <= p < k1.len(),
        p < k2.len(),
    ensures
        forall|q: int| 0 <= q <= p ==> k1[q] == k2[q],
    decreases p,
{
    if p > 0 {
        lemma_kept_agree(s, o1, k1, o2, k2, p - 1);
    }
    assert(is_kept(s, k1[p]));
    assert(is_kept(s, k2[p]));
    lemma_kept_listed(s, o2, k2, k1[p]);
    lemma_kept_listed(s, o1, k1, k2[p]);
    let q = choose|q: int| 0 <= q < k2.len() && k2[q] == k1[p];
    let r = choose|r: int| 0 <= r < k1.len() && k1[r] == k2[p];
    if q < p {
        assert(k1[q] == k2[q]);
        assert(ranks_before(s, k1[q], k1[p]));
    }
    if r < p {
        assert(k1[r] == k2[r]);
        assert(ranks_before(s, k2[r], k2[p]));
    }
    if q > p && r > p {
        assert(ranks_before(s, k2[p], k2[q]));
        assert(ranks_before(s, k1[p], k1[r]));
    }
    assert(k1[p] == k2[p]);
}

/// A merge has at least as many positions as any other merge of the same entries.
proof fn lemma_kept_len(
    s: Seq<AccessPointView>,
    o1: Seq<AccessPointView>,
    k1: Seq<int>,
    o2: Seq<AccessPointView>,
    k2: Seq<int>,
)
    requires
        is_merge_of(s, o1, k1),
        is_merge_of(s, o2, k2),
    ensures
        k2.len() <= k1.len(),
{
    let n: int = k1.len() as int;
    if k2.len() > n {
        assert(is_kept(s, k2[n]));
        lemma_kept_listed(s, o1, k1, k2[n]);
        let r = choose|r: int| 0 <= r < k1.len() && k1[r] == k2[n];
        lemma_kept_agree(s, o1, k1, o2, k2, n - 1);
        assert(k2[r] == k1[r]);
        assert(ranks_before(s, k2[r], k2[n]));
    }
}

/// The merge of a list of entries is unique: two lists that both meet
/// [`is_merge_of`] for the same entries are equal.
pub proof fn lemma_merge_unique(
    s: Seq<AccessPointView>,
    o1: Seq<AccessPointView>,
    k1: Seq<int>,
    o2: Seq<AccessPointView>,
    k2: Seq<int>,
)
    requires
        is_merge_of(s, o1, k1),
        is_merge_of(s, o2, k2),
    ensures
        o1 == o2,
{
    lemma_kept_len(s, o1, k1, o2, k2);
    lemma_kept_len(s, o2, k2, o1, k1);
    if k1.len() > 0 {
        lemma_kept_agree(s, o1, k1, o2, k2, k1.len() - 1);
    }
    assert forall|p: int| 0 <= p < o1.len() implies o1[p] == o2[p] by {
        assert(o1[p] == shown(s, k1[p]));
        assert(o2[p] == shown(s, k2[p]));
    }
    assert(o1 =~= o2);
}

/// A merged list names each SSID once.
proof fn lemma_merge_distinct(s: Seq<AccessPointView>, o: Seq<AccessPointView>, k: Seq<int>)
    requires
        is_merge_of(s, o, k),
    ensures
        distinct_ssids(o),
{
    assert forall|p: int, q: int| 0 <= p < q < o.len() implies #[trigger] o[p].ssid != #[trigger] o[q].ssid by {
        assert(o[p] == shown(s, k[p]));
        assert(o[q] == shown(s, k[q]));
        assert(ranks_before(s, k[p], k[q]));
        if o[p].ssid == o[q].ssid {
            lemma_kept_unique(s, k[p], k[q]);
        }
    }
}

/// Entries of `o` come strongest first.
pub open spec fn strongest_first(o: Seq<AccessPointView>) -> bool {
    forall|p: int, q: int| 0 <= p < q < o.len() ==> #[trigger] o[p].signal_strength >= #[trigger] o[q].signal_strength
}

/// A merged list comes strongest first.
proof fn lemma_merge_sorted(s: Seq<AccessPointView>, o: Seq<AccessPointView>, k: Seq<int>)
    requires
        is_merge_of(s, o, k),
    ensures
        strongest_first(o),
{
    assert forall|p: int, q: int| 0 <= p < q < o.len() implies #[trigger] o[p].signal_strength >= #[trigger] o[q].signal_strength by {
        assert(o[p] == shown(s, k[p]));
        assert(o[q] == shown(s, k[q]));
        assert(ranks_before(s, k[p], k[q]));
    }
}

/// In a list with distinct SSIDs every entry is kept.
proof fn lemma_distinct_all_kept(o: Seq<AccessPointView>)
    requires
        distinct_ssids(o),
    ensures
        forall|p: int| 0 <= p < o.len() ==> #[trigger] is_kept(o, p),
{
    assert forall|p: int| 0 <= p < o.len() implies #[trigger] is_kept(o, p) by {
        assert forall|j: int| 0 <= j < o.len() && j != p && #[trigger] o[j].ssid == o[p].ssid implies ranks_before(o, p, j) by {
            if j < p {
                assert(o[j].ssid != o[p].ssid);
            } else {
                assert(o[p].ssid != o[j].ssid);
            }
        }
    }
}

/// In a list with distinct SSIDs every entry is shown as it is.
proof fn lemma_distinct_all_shown(o: Seq<AccessPointView>)
    requires
        distinct_ssids(o),
    ensures
        forall|p: int| 0 <= p < o.len() ==> #[trigger] shown(o, p) == o[p],
{
    assert forall|p: int| 0 <= p < o.len() implies #[trigger] shown(o, p) == o[p] by {
        if any_connected(o, o[p].ssid) {
            let j = choose|j: int| 0 <= j < o.len() && #[trigger] o[j].ssid == o[p].ssid && o[j].is_connected;
            if j < p {
                assert(o[j].ssid != o[p].ssid);
            } else if j > p {
                assert(o[p].ssid != o[j].ssid);
            }
        }
        if o[p].is_connected {
            assert(o[p].ssid == o[p].ssid);
            assert(any_connected(o, o[p].ssid));
        }
    }
}

/// The positions `0..n` in order.
pub open spec fn positions(n: nat) -> Seq<int> {
    Seq::new(n, |i: int| i)
}

/// A list with distinct SSIDs that comes strongest first is its own merge,
/// each entry kept in place.
proof fn lemma_self_merge(o: Seq<AccessPointView>)
    requires
        distinct_ssids(o),
        strongest_first(o),
    ensures
        is_merge_of(o, o, positions(o.len())),
{
    let id = positions(o.len());
    lemma_distinct_all_kept(o);
    lemma_distinct_all_shown(o);
    assert forall|p: int| 0 <= p < o.len() implies is_kept(o, #[trigger] id[p]) && o[p] == shown(o, id[p]) by {
        assert(id[p] == p);
        assert(is_kept(o, p));
        assert(shown(o, p) == o[p]);
    }
    assert forall|p: int, q: int| 0 <= p < q < o.len() implies ranks_before(o, #[trigger] id[p], #[trigger] id[q]) by {
        assert(id[p] == p && id[q] == q);
        assert(o[p].signal_strength >= o[q].signal_strength);
    }
    assert forall|i: int| 0 <= i < o.len() implies lists_ssid(o, #[trigger] o[i].ssid) by {
        assert(o[i].ssid == o[i].ssid);
    }
}

/// Merging an already merged list gives it back unchanged.
pub proof fn lemma_merge_idempotent(
    s: Seq<AccessPointView>,
    o: Seq<AccessPointView>,
    k: Seq<int>,
    o2: Seq<AccessPointView>,
    k2: Seq<int>,
)
    requires
        is_merge_of(s, o, k),
        is_merge_of(o, o2, k2),
    ensures
        o2 == o,
{
    lemma_merge_distinct(s, o, k);
    lemma_merge_sorted(s, o, k);
    lemma_self_merge(o);
    lemma_merge_unique(o, o, positions(o.len()), o2, k2);
}

// ---------------------------------------------------------------------------
// Building the list from raw scan entries
// ---------------------------------------------------------------------------

/// One access point as read from the system, before any interpretation.
/// `None` marks a property that could not be read.
pub struct RawAccessPoint {
    pub device_path: String,
    pub path: String,
    pub ssid_bytes: Option<Vec<u8>>,
    pub strength: Option<u8>,
    pub flags: Option<u32>,
    pub wpa_flags: Option<u32>,
    pub rsn_flags: Option<u32>,
}

/// The mathematical value of a [`RawAccessPoint`].
pub struct RawAccessPointView {
    pub device_path: Seq<char>,
    pub path: Seq<char>,
    pub ssid_bytes: Option<Seq<u8>>,
    pub strength: Option<u8>,
    pub flags: Option<u32>,
    pub wpa_flags: Option<u32>,
    pub rsn_flags: Option<u32>,
}

impl View for RawAccessPoint {
    type V = RawAccessPointView;

    open spec fn view(&self) -> RawAccessPointView {
        RawAccessPointView {
            device_path: self.device_path@,
            path: self.path@,
            ssid_bytes: match self.ssid_bytes {
                Some(b) => Some(b@),
                None => None,
            },
            strength: self.strength,
            flags: self.flags,
            wpa_flags: self.wpa_flags,
            rsn_flags: self.rsn_flags,
        }
    }
}

/// The SSID text of a raw entry: its bytes decoded leniently, empty when
/// they could not be read.
pub open spec fn raw_ssid(r: RawAccessPointView) -> Seq<char> {
    match r.ssid_bytes {
        Some(b) => lossy_text(b),
        None => lossy_text(Seq::empty()),
    }
}

/// The entry that a raw access point contributes, if any: the placeholder
/// path `/` and entries whose SSID is empty are skipped; missing numbers
/// count as zero; the entry is connected when its SSID is the active one.
pub open spec fn entry_of(r: RawAccessPointView, active: Option<Seq<char>>) -> Option<AccessPointView> {
    let ssid = raw_ssid(r);
    if r.path == "/"@ || ssid.len() == 0 {
        None
    } else {
        Some(AccessPointView {
            ssid: ssid,
            signal_strength: match r.strength { Some(x) => x, None => 0 },
            security: spec_security(
                match r.flags { Some(x) => x, None => 0 },
                match r.wpa_flags { Some(x) => x, None => 0 },
                match r.rsn_flags { Some(x) => x, None => 0 },
            ),
            is_connected: active == Some(ssid),
            device_path: r.device_path,
            path: r.path,
        })
    }
}

/// The entries that a list of raw access points contributes, in order.
pub open spec fn entries_of(rs: Seq<RawAccessPointView>, active: Option<Seq<char>>) -> Seq<AccessPointView>
    decreases rs.len(),
{
    if rs.len() == 0 {
        Seq::empty()
    } else {
        let front = entries_of(rs.drop_last(), active);
        match entry_of(rs.last(), active) {
            Some(e) => front.push(e),
            None => front,
        }
    }
}

/// The views of a list of raw access points.
pub open spec fn raw_views(rs: Seq<RawAccessPoint>) -> Seq<RawAccessPointView> {
    rs.map_values(|r: RawAccessPoint| r@)
}

/// The optional active SSID as a value.
pub open spec fn opt_text(o: Option<String>) -> Option<Seq<char>> {
    match o {
        Some(s) => Some(s@),
        None => None,
    }
}

/// Interprets one raw access point (see [`entry_of`]).
pub fn access_point_from_raw(r: &RawAccessPoint, active_ssid: &Option<String>) -> (e: Option<AccessPoint>)
    ensures
        match e {
            Some(a) => entry_of(r@, opt_text(*active_ssid)) == Some(a@),
            None => entry_of(r@, opt_text(*active_ssid)) is None,
        },
{
    let empty: Vec<u8> = Vec::new();
    let bytes: &Vec<u8> = match &r.ssid_bytes {
        Some(b) => b,
        None => &empty,
    };
    assert(empty@ =~= Seq::<u8>::empty());
    let ssid = utf8_lossy(bytes.as_slice());
    if crate::text::str_eq(r.path.as_str(), "/") || ssid.as_str().unicode_len() == 0 {
        return None;
    }
    let strength = match r.strength { Some(x) => x, None => 0 };
    let flags = match r.flags { Some(x) => x, None => 0 };
    let wpa = match r.wpa_flags { Some(x) => x, None => 0 };
    let rsn = match r.rsn_flags { Some(x) => x, None => 0 };
    let is_connected = match active_ssid {
        Some(a) => *a == ssid,
        None => false,
    };
    Some(AccessPoint {
        ssid: ssid,
        signal_strength: strength,
        security: security_from_flags(flags, wpa, rsn),
        is_connected: is_connected,
        device_path: r.device_path.clone(),
        path: r.path.clone(),
    })
}

/// The access-point list for raw scan entries gathered from every wireless
/// device: each entry is interpreted (see [`entry_of`]) and the entries are
/// merged (see [`merge_access_points`]).
pub fn access_points_from_scan(raw: &Vec<RawAccessPoint>, active_ssid: &Option<String>) -> (o: Vec<AccessPoint>)
    ensures
        exists|kept: Seq<int>| is_merge_of(entries_of(raw_views(raw@), opt_text(*active_ssid)), views(o@), kept),
        distinct_ssids(views(o@)),
{
    let ghost act = opt_text(*active_ssid);
    let mut entries: Vec<AccessPoint> = Vec::new();
    let mut i: usize = 0;
    while i < raw.len()
        invariant
            i <= raw.len(),
            act == opt_text(*active_ssid),
            views(entries@) == entries_of(raw_views(raw@).take(i as int), act),
        decreases raw.len() - i,
    {
        let ghost before = views(entries@);
        let e = access_point_from_raw(&raw[i], active_ssid);
        proof {
            let t = raw_views(raw@).take(i + 1);
            assert(t.drop_last() =~= raw_views(raw@).take(i as int));
            assert(t.last() == raw@[i as int]@);
        }
        match e {
            Some(a) => {
                entries.push(a);
                assert(views(entries@) =~= before.push(entries@.last()@));
            }
            None => {}
        }
        i = i + 1;
    }
    assert(raw_views(raw@).take(raw.len() as int) =~= raw_views(raw@));
    merge_access_points(&entries)
}

} // verus!
