//! Rules of the Wi-Fi list: how many signal bars a network shows, which
//! networks a search keeps and in which section, and the labels and buttons
//! of each row.

use vstd::prelude::*;
use crate::scan::{AccessPoint, AccessPointView, SecurityType, copy_access_point, views};
use crate::text::{
    contains_seq, is_prefix_of, occurs_at, is_space, is_space_char, matches_at, chars_of,
    lowercase, to_lowercase, str_starts_with, str_contains, str_eq, push_str, push_decimal,
    decimal, owned,
};

verus! {

// ---------------------------------------------------------------------------
// Signal bars
// ---------------------------------------------------------------------------

/// The number of lit bars (of four) for a signal strength in percent.
pub open spec fn bars_for(strength: u8) -> u8 {
    if strength <= 24 {
        1
    } else if strength <= 49 {
        2
    } else if strength <= 74 {
        3
    } else {
        4
    }
}

/// The number of lit bars (of four) for a signal strength (see [`bars_for`]).
pub fn signal_bar_count(strength: u8) -> (n: u8)
    ensures
        n == bars_for(strength),
        1 <= n <= 4,
{
    if strength <= 24 {
        1
    } else if strength <= 49 {
        2
    } else if strength <= 74 {
        3
    } else {
        4
    }
}

/// A stronger signal never lights fewer bars.
pub proof fn lemma_bars_monotone(a: u8, b: u8)
    requires
        a <= b,
    ensures
        bars_for(a) <= bars_for(b),
{
}

/// The look of one signal bar.
#[derive(Clone, Copy, Debug, PartialEq, Eq, Structural)]
pub enum BarStyle {
    /// Lit, in the accent colour of the connected network.
    ActiveAccent,
    /// Lit.
    Active,
    /// Not lit.
    Inactive,
}

/// The style of bar `bar` (1 to 4, shortest first).
pub open spec fn bar_style(strength: u8, bar: int, connected: bool) -> BarStyle {
    if bar <= bars_for(strength) {
        if connected {
            BarStyle::ActiveAccent
        } else {
            BarStyle::Active
        }
    } else {
        BarStyle::Inactive
    }
}

/// The four bars of the signal indicator, shortest first.
pub fn signal_bars(strength: u8, connected: bool) -> (v: Vec<BarStyle>)
    ensures
        v.len() == 4,
        forall|i: int| 0 <= i < 4 ==> v@[i] == bar_style(strength, i + 1, connected),
{
    let lit = signal_bar_count(strength);
    let mut v: Vec<BarStyle> = Vec::new();
    let mut k: u8 = 1;
    while k <= 4
        invariant
            1 <= k <= 5,
            lit == bars_for(strength),
            v.len() == k - 1,
            forall|i: int| 0 <= i < v.len() ==> v@[i] == bar_style(strength, i + 1, connected),
        decreases 5 - k,
    {
        let style = if k <= lit {
            if connected {
                BarStyle::ActiveAccent
            } else {
                BarStyle::Active
            }
        } else {
            BarStyle::Inactive
        };
        v.push(style);
        k = k + 1;
    }
    v
}

// ---------------------------------------------------------------------------
// Search and sections
// ---------------------------------------------------------------------------

/// Whether a network name matches a lower-cased query: the lower-cased name
/// starts with it or contains it.
pub open spec fn query_matches(name: Seq<char>, q: Seq<char>) -> bool {
    is_prefix_of(q, lowercase(name)) || contains_seq(lowercase(name), q)
}

/// Whether a network is kept by the lower-cased query `q` (an empty query
/// keeps everything).
pub open spec fn is_listed(a: AccessPointView, q: Seq<char>) -> bool {
    q.len() == 0 || query_matches(a.ssid, q)
}

/// A character that separates words in a network name: white space, `-`,
/// `_` or `.`.
pub open spec fn word_separator(c: char) -> bool {
    is_space(c) || c == '-' || c == '_' || c == '.'
}

/// Whether `q` occurs in `l` at the start of a word: at index 0 or right
/// after a separator.
pub open spec fn word_occurrence(l: Seq<char>, q: Seq<char>) -> bool {
    exists|i: int| occurs_at(l, q, i) && (i == 0 || word_separator(l[i - 1]))
}

/// Whether a network comes first among the matches of `q`: the query starts
/// a word of its lower-cased name (every network does for an empty query).
pub open spec fn leads(a: AccessPointView, q: Seq<char>) -> bool {
    q.len() == 0 || word_occurrence(lowercase(a.ssid), q)
}

/// The networks of `s` kept by `q`, with connection state `connected`, that
/// lead (`leading`) or do not, in the order of `s`.
pub open spec fn part(s: Seq<AccessPointView>, q: Seq<char>, connected: bool, leading: bool) -> Seq<
    AccessPointView,
>
    decreases s.len(),
{
    if s.len() == 0 {
        Seq::empty()
    } else {
        let rest = part(s.drop_last(), q, connected, leading);
        let a = s.last();
        if is_listed(a, q) && a.is_connected == connected && leads(a, q) == leading {
            rest.push(a)
        } else {
            rest
        }
    }
}

/// A section of the list: the networks kept by `q` with connection state
/// `connected`, those where the query starts a word first, each group in
/// scan order.
pub open spec fn section(s: Seq<AccessPointView>, q: Seq<char>, connected: bool) -> Seq<
    AccessPointView,
> {
    part(s, q, connected, true) + part(s, q, connected, false)
}

/// What the Wi-Fi list shows.
pub enum NetworkListing {
    /// There are no networks: the hint to scan.
    Empty,
    /// No network matches the search; holds the lower-cased query.
    NoMatch(String),
    /// The "active connection" and "available networks" sections.
    Sections { connected: Vec<AccessPoint>, available: Vec<AccessPoint> },
}

/// Whether `a` is kept by the lower-cased query `q`.
pub fn network_is_listed(a: &AccessPoint, q: &str) -> (b: bool)
    ensures
        b == is_listed(a@, q@),
{
    if q.unicode_len() == 0 {
        return true;
    }
    let name = to_lowercase(a.ssid.as_str());
    str_starts_with(name.as_str(), q) || str_contains(name.as_str(), q)
}

/// Whether `c` separates words (see [`word_separator`]).
fn is_word_separator(c: char) -> (b: bool)
    ensures
        b == word_separator(c),
{
    is_space_char(c) || c == '-' || c == '_' || c == '.'
}

/// Whether `q` occurs in `l` at the start of a word (see
/// [`word_occurrence`]).
pub fn occurs_at_word_start(l: &[char], q: &[char]) -> (b: bool)
    ensures
        b == word_occurrence(l@, q@),
{
    if q.len() > l.len() {
        assert forall|i: int| !occurs_at(l@, q@, i) by {}
        return false;
    }
    let last = l.len() - q.len();
    let mut i: usize = 0;
    loop
        invariant
            last + q.len() == l.len(),
            i <= last,
            forall|j: int|
                0 <= j < i ==> !(occurs_at(l@, q@, j) && (j == 0 || word_separator(l@[j - 1]))),
        decreases last - i,
    {
        if matches_at(l, q, i) && (i == 0 || is_word_separator(l[i - 1])) {
            return true;
        }
        if i == last {
            assert forall|j: int|
                !(occurs_at(l@, q@, j) && (j == 0 || word_separator(l@[j - 1]))) by {
                if 0 <= j && j < i {
                } else if j > last {
                    assert(!occurs_at(l@, q@, j));
                }
            }
            return false;
        }
        i = i + 1;
    }
}

/// Whether `a` comes first among the matches of `q` (see [`leads`]).
pub fn network_leads(a: &AccessPoint, q: &str) -> (b: bool)
    ensures
        b == leads(a@, q@),
{
    if q.unicode_len() == 0 {
        return true;
    }
    let name = to_lowercase(a.ssid.as_str());
    let lv = chars_of(name.as_str());
    let qv = chars_of(q);
    occurs_at_word_start(lv.as_slice(), qv.as_slice())
}

/// The networks of `networks` in [`part`]`(.., q, connected, leading)`.
fn collect_part(networks: &Vec<AccessPoint>, q: &str, connected: bool, leading: bool) -> (out: Vec<
    AccessPoint,
>)
    ensures
        views(out@) == part(views(networks@), q@, connected, leading),
{
    let mut out: Vec<AccessPoint> = Vec::new();
    let mut i: usize = 0;
    while i < networks.len()
        invariant
            i <= networks.len(),
            views(out@) == part(views(networks@).take(i as int), q@, connected, leading),
        decreases networks.len() - i,
    {
        let ghost before = out@;
        let a = &networks[i];
        assert(views(networks@).take(i + 1).drop_last() =~= views(networks@).take(i as int));
        if network_is_listed(a, q) && a.is_connected == connected && network_leads(a, q)
            == leading {
            out.push(copy_access_point(a));
            assert(views(out@) =~= views(before).push(a@));
        }
        i = i + 1;
    }
    assert(views(networks@).take(networks.len() as int) =~= views(networks@));
    out
}

/// The section of `networks` for `q` and `connected` (see [`section`]).
fn collect_section(networks: &Vec<AccessPoint>, q: &str, connected: bool) -> (out: Vec<AccessPoint>)
    ensures
        views(out@) == section(views(networks@), q@, connected),
{
    let mut first = collect_part(networks, q, connected, true);
    let mut rest = collect_part(networks, q, connected, false);
    let ghost a = first@;
    let ghost b = rest@;
    first.append(&mut rest);
    assert(views(first@) =~= views(a) + views(b));
    first
}

/// What the Wi-Fi list shows for `networks` and the text in the search box:
/// nothing but a hint when there are no networks; a "no match" line when the
/// lower-cased search keeps none of them; otherwise the kept networks split
/// into connected and available ones (see [`section`]).
pub fn network_listing(networks: &Vec<AccessPoint>, search: &str) -> (r: NetworkListing)
    ensures
        match r {
            NetworkListing::Empty => networks@.len() == 0,
            NetworkListing::NoMatch(q) => {
                &&& networks@.len() > 0
                &&& q@ == lowercase(search@)
                &&& q@.len() > 0
                &&& section(views(networks@), q@, true).len() == 0
                &&& section(views(networks@), q@, false).len() == 0
            },
            NetworkListing::Sections { connected, available } => {
                &&& networks@.len() > 0
                &&& views(connected@) == section(views(networks@), lowercase(search@), true)
                &&& views(available@) == section(views(networks@), lowercase(search@), false)
                &&& (lowercase(search@).len() == 0 || connected@.len() > 0 || available@.len() > 0)
            },
        },
{
    if networks.len() == 0 {
        return NetworkListing::Empty;
    }
    let q = to_lowercase(search);
    let connected = collect_section(networks, q.as_str(), true);
    let available = collect_section(networks, q.as_str(), false);
    if q.as_str().unicode_len() > 0 && connected.len() == 0 && available.len() == 0 {
        NetworkListing::NoMatch(q)
    } else {
        NetworkListing::Sections { connected, available }
    }
}

/// Every member of a part is kept by the query, has the part's connection
/// state, and leads or not as the part says.
pub proof fn lemma_part_members(
    s: Seq<AccessPointView>,
    q: Seq<char>,
    connected: bool,
    leading: bool,
    k: int,
)
    requires
        0 <= k < part(s, q, connected, leading).len(),
    ensures
        is_listed(part(s, q, connected, leading)[k], q),
        part(s, q, connected, leading)[k].is_connected == connected,
        leads(part(s, q, connected, leading)[k], q) == leading,
    decreases s.len(),
{
    let rest = part(s.drop_last(), q, connected, leading);
    if k < rest.len() {
        lemma_part_members(s.drop_last(), q, connected, leading, k);
    }
}

/// With a non-empty query, every network in either section has the query
/// somewhere in its lower-cased name.
pub proof fn lemma_listed_names_contain_query(
    s: Seq<AccessPointView>,
    q: Seq<char>,
    connected: bool,
    k: int,
)
    requires
        q.len() > 0,
        0 <= k < section(s, q, connected).len(),
    ensures
        contains_seq(lowercase(section(s, q, connected)[k].ssid), q),
{
    let first = part(s, q, connected, true);
    let second = part(s, q, connected, false);
    let a = section(s, q, connected)[k];
    if k < first.len() {
        lemma_part_members(s, q, connected, true, k);
        assert(a == first[k]);
    } else {
        lemma_part_members(s, q, connected, false, k - first.len());
        assert(a == second[k - first.len()]);
    }
    let l = lowercase(a.ssid);
    if is_prefix_of(q, l) {
        assert(occurs_at(l, q, 0));
    }
}

/// A network kept by `q`, with connection state `connected` and leading as
/// `leading` says, is in that part.
proof fn lemma_part_keeps(s: Seq<AccessPointView>, q: Seq<char>, connected: bool, leading: bool, i: int)
    requires
        0 <= i < s.len(),
        is_listed(s[i], q),
        s[i].is_connected == connected,
        leads(s[i], q) == leading,
    ensures
        exists|k: int|
            0 <= k < part(s, q, connected, leading).len() && #[trigger] part(s, q, connected, leading)[k]
                == s[i],
    decreases s.len(),
{
    let rest = part(s.drop_last(), q, connected, leading);
    if i == s.len() - 1 {
        assert(part(s, q, connected, leading)[rest.len() as int] == s[i]);
    } else {
        lemma_part_keeps(s.drop_last(), q, connected, leading, i);
        let k = choose|k: int| 0 <= k < rest.len() && #[trigger] rest[k] == s.drop_last()[i];
        assert(part(s, q, connected, leading)[k] == s[i]);
    }
}

/// Every network whose lower-cased name contains the query (every network,
/// for an empty query) is in the section of its connection state.
pub proof fn lemma_matching_networks_listed(s: Seq<AccessPointView>, q: Seq<char>, i: int)
    requires
        0 <= i < s.len(),
        q.len() == 0 || contains_seq(lowercase(s[i].ssid), q),
    ensures
        exists|k: int|
            0 <= k < section(s, q, s[i].is_connected).len() && #[trigger] section(
                s,
                q,
                s[i].is_connected,
            )[k] == s[i],
{
    let c = s[i].is_connected;
    let lead = leads(s[i], q);
    lemma_part_keeps(s, q, c, lead, i);
    let first = part(s, q, c, true);
    let p = part(s, q, c, lead);
    let k = choose|k: int| 0 <= k < p.len() && #[trigger] p[k] == s[i];
    if lead {
        assert(section(s, q, c)[k] == s[i]);
    } else {
        assert(section(s, q, c)[first.len() + k] == s[i]);
    }
}

/// Whether a network is kept by a query does not depend on whether it is
/// the connected one.
pub proof fn lemma_listing_ignores_connection(a: AccessPointView, q: Seq<char>, c: bool)
    ensures
        is_listed(a, q) == is_listed(AccessPointView { is_connected: c, ..a }, q),
{
}

/// In each section, every network whose name has the query at the start of
/// a word comes before every other match.
pub proof fn lemma_word_matches_first(
    s: Seq<AccessPointView>,
    q: Seq<char>,
    connected: bool,
    i: int,
    j: int,
)
    requires
        0 <= i < j < section(s, q, connected).len(),
        leads(section(s, q, connected)[j], q),
    ensures
        leads(section(s, q, connected)[i], q),
{
    let first = part(s, q, connected, true);
    let second = part(s, q, connected, false);
    if j >= first.len() {
        lemma_part_members(s, q, connected, false, j - first.len());
        assert(section(s, q, connected)[j] == second[j - first.len()]);
    }
    assert(i < first.len());
    lemma_part_members(s, q, connected, true, i);
    assert(section(s, q, connected)[i] == first[i]);
}

/// A longer query keeps no more networks: whatever a query keeps, every
/// query that starts it keeps too.
pub proof fn lemma_shorter_query_keeps_more(name: Seq<char>, q1: Seq<char>, q2: Seq<char>)
    requires
        is_prefix_of(q1, q2),
        query_matches(name, q2),
    ensures
        query_matches(name, q1),
{
    let l = lowercase(name);
    if is_prefix_of(q2, l) {
        assert(l.subrange(0, q1.len() as int) =~= q2.subrange(0, q1.len() as int));
    } else {
        let i = choose|i: int| occurs_at(l, q2, i);
        assert(l.subrange(i, i + q1.len()) =~= q2.subrange(0, q1.len() as int));
        assert(occurs_at(l, q1, i));
    }
}

/// With an empty search every network is listed, in scan order, in one
/// section or the other.
pub proof fn lemma_empty_query_lists_all(s: Seq<AccessPointView>)
    ensures
        section(s, Seq::empty(), true).len() + section(s, Seq::empty(), false).len() == s.len(),
        part(s, Seq::empty(), true, false).len() == 0,
        part(s, Seq::empty(), false, false).len() == 0,
    decreases s.len(),
{
    if s.len() > 0 {
        lemma_empty_query_lists_all(s.drop_last());
    }
}

/// The line shown when a search keeps nothing.
pub fn no_match_text(q: &str) -> (s: String)
    ensures
        s@ == "No networks matching '"@ + q@ + "'"@,
{
    let mut s = owned("No networks matching '");
    push_str(&mut s, q);
    push_str(&mut s, "'");
    s
}

// ---------------------------------------------------------------------------
// Rows
// ---------------------------------------------------------------------------

/// The status line under a network's name: the signal of a connected network,
/// or the signal and whether the network is secured.
pub open spec fn row_status(a: AccessPointView) -> Seq<char> {
    if a.is_connected {
        "Connected · "@ + decimal(a.signal_strength as nat) + "%"@
    } else if a.security != SecurityType::Open {
        decimal(a.signal_strength as nat) + "% Signal · Secure"@
    } else {
        decimal(a.signal_strength as nat) + "% Signal · Open"@
    }
}

/// The status line under a network's name (see [`row_status`]).
pub fn network_status_text(a: &AccessPoint) -> (s: String)
    ensures
        s@ == row_status(a@),
{
    if a.is_connected {
        let mut s = owned("Connected · ");
        push_decimal(&mut s, a.signal_strength as u64);
        push_str(&mut s, "%");
        s
    } else {
        let mut s = String::new();
        push_decimal(&mut s, a.signal_strength as u64);
        if a.security != SecurityType::Open {
            push_str(&mut s, "% Signal · Secure");
        } else {
            push_str(&mut s, "% Signal · Open");
        }
        s
    }
}

/// What a row offers in place of, or as, its main button.
#[derive(Clone, Copy, Debug, PartialEq, Eq, Structural)]
pub enum RowWork {
    /// A spinner: the row's network is being connected.
    Connecting,
    /// A spinner: the row's network is being disconnected.
    Disconnecting,
    /// A "Connect" button, enabled or not.
    Connect { enabled: bool },
    /// A "Disconnect" button, enabled or not.
    Disconnect { enabled: bool },
}

/// The controls at the end of a network row.
#[derive(Clone, Copy, Debug, PartialEq, Eq, Structural)]
pub struct RowControls {
    /// The padlock of a secured network that is not connected.
    pub lock: bool,
    /// The spinner or the main button.
    pub work: RowWork,
    /// The "Details" button.
    pub details: bool,
}

/// Whether `pending` names `ssid`.
pub open spec fn names(pending: Option<Seq<char>>, ssid: Seq<char>) -> bool {
    pending == Some(ssid)
}

/// The controls of the row for `a`, given the network being connected and the
/// one being disconnected, if any. While another network is being connected,
/// "Connect" is disabled; while a disconnection runs, "Disconnect" is.
pub open spec fn row_controls(
    a: AccessPointView,
    connecting: Option<Seq<char>>,
    disconnecting: Option<Seq<char>>,
) -> RowControls {
    let is_connecting = names(connecting, a.ssid);
    let is_disconnecting = names(disconnecting, a.ssid);
    let enabled = !(connecting is Some && !a.is_connected) && !(disconnecting is Some
        && a.is_connected);
    RowControls {
        lock: a.security != SecurityType::Open && !a.is_connected,
        work: if is_connecting {
            RowWork::Connecting
        } else if is_disconnecting {
            RowWork::Disconnecting
        } else if a.is_connected {
            RowWork::Disconnect { enabled }
        } else {
            RowWork::Connect { enabled }
        },
        details: a.is_connected && !is_disconnecting,
    }
}

/// Whether the optional string `p` holds exactly `s`.
fn holds(p: &Option<String>, s: &str) -> (b: bool)
    ensures
        b == names(crate::scan::opt_text(*p), s@),
{
    match p {
        Some(t) => str_eq(t.as_str(), s),
        None => false,
    }
}

/// The controls of the row for `a` (see [`row_controls`]).
pub fn network_row_controls(
    a: &AccessPoint,
    connecting: &Option<String>,
    disconnecting: &Option<String>,
) -> (c: RowControls)
    ensures
        c == row_controls(a@, crate::scan::opt_text(*connecting), crate::scan::opt_text(
            *disconnecting,
        )),
{
    let is_connecting = holds(connecting, a.ssid.as_str());
    let is_disconnecting = holds(disconnecting, a.ssid.as_str());
    let enabled = !(connecting.is_some() && !a.is_connected) && !(disconnecting.is_some()
        && a.is_connected);
    let work = if is_connecting {
        RowWork::Connecting
    } else if is_disconnecting {
        RowWork::Disconnecting
    } else if a.is_connected {
        RowWork::Disconnect { enabled }
    } else {
        RowWork::Connect { enabled }
    };
    RowControls {
        lock: a.security != SecurityType::Open && !a.is_connected,
        work,
        details: a.is_connected && !is_disconnecting,
    }
}

/// The text of a row's spinner or main button.
pub open spec fn work_label(w: RowWork) -> Seq<char> {
    match w {
        RowWork::Connecting => "Connecting..."@,
        RowWork::Disconnecting => "Disconnecting..."@,
        RowWork::Connect { .. } => "Connect"@,
        RowWork::Disconnect { .. } => "Disconnect"@,
    }
}

/// The text of a row's spinner or main button (see [`work_label`]).
pub fn row_work_label(w: RowWork) -> (s: String)
    ensures
        s@ == work_label(w),
{
    match w {
        RowWork::Connecting => owned("Connecting..."),
        RowWork::Disconnecting => owned("Disconnecting..."),
        RowWork::Connect { .. } => owned("Connect"),
        RowWork::Disconnect { .. } => owned("Disconnect"),
    }
}

} // verus!
