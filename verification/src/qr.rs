//! Importing a VPN profile from a scanned QR code: recognising the kind of
//! configuration, choosing file and interface names, and naming the profile.

use vstd::prelude::*;
use vstd::string::*;
use crate::vpn::{Command, CommandView};
use crate::text::{
    contains_seq, str_contains, lossy_text, utf8_lossy, decimal, push_decimal, push_str, owned,
    first_index_of, find_char, chars_of, string_from_chars, skip_chars,
};

verus! {

/// The kinds of VPN configuration a QR code can carry.
#[derive(Clone, Copy, Debug, PartialEq, Eq, Structural)]
pub enum VpnKind {
    WireGuard,
    OpenVpn,
}

/// The kind of configuration in a scanned text: WireGuard when it has an
/// `[Interface]` section with a private key, OpenVPN when it mentions a
/// client, a CA block or a remote; nothing otherwise.
pub open spec fn vpn_kind_of(s: Seq<char>) -> Option<VpnKind> {
    if contains_seq(s, "[Interface]"@) && contains_seq(s, "PrivateKey"@) {
        Some(VpnKind::WireGuard)
    } else if contains_seq(s, "client"@) || contains_seq(s, "<ca>"@) || contains_seq(s, "remote "@) {
        Some(VpnKind::OpenVpn)
    } else {
        None
    }
}

/// The kind of configuration in a scanned text (see [`vpn_kind_of`]).
pub fn detect_vpn_type(s: &str) -> (k: Option<VpnKind>)
    ensures
        k == vpn_kind_of(s@),
{
    if str_contains(s, "[Interface]") && str_contains(s, "PrivateKey") {
        return Some(VpnKind::WireGuard);
    }
    if str_contains(s, "client") || str_contains(s, "<ca>") || str_contains(s, "remote ") {
        return Some(VpnKind::OpenVpn);
    }
    None
}

/// The connection type the importer is told.
pub open spec fn import_type_of(k: VpnKind) -> Seq<char> {
    match k {
        VpnKind::WireGuard => "wireguard"@,
        VpnKind::OpenVpn => "openvpn"@,
    }
}

/// The connection type the importer is told (see [`import_type_of`]).
pub fn import_type(k: VpnKind) -> (s: String)
    ensures
        s@ == import_type_of(k),
{
    match k {
        VpnKind::WireGuard => owned("wireguard"),
        VpnKind::OpenVpn => owned("openvpn"),
    }
}

/// The name of WireGuard interface `index`.
pub open spec fn wg_name(index: u32) -> Seq<char> {
    "wg"@ + decimal(index as nat)
}

/// The name of WireGuard interface `index` (see [`wg_name`]).
pub fn wireguard_interface(index: u32) -> (s: String)
    ensures
        s@ == wg_name(index),
{
    let mut s = owned("wg");
    push_decimal(&mut s, index as u64);
    s
}

/// The next step of the search for a free WireGuard interface name.
pub enum SlotStep {
    /// Use this interface name.
    Use(String),
    /// Try the next index.
    Next(u32),
    /// Every name up to `wg255` is taken.
    TooMany,
}

/// One step of the search at `index`, given the connection listing (`None`
/// when it could not be produced): a name the listing does not mention is
/// free; when the listing cannot be produced the current name is used; the
/// search gives up past index 255.
pub open spec fn slot_step_spec(index: u32, listing: Option<Seq<u8>>) -> Option<Option<Seq<char>>> {
    match listing {
        None => Some(Some(wg_name(index))),
        Some(out) => if !contains_seq(lossy_text(out), wg_name(index)) {
            Some(Some(wg_name(index)))
        } else if index + 1 > 255 {
            None
        } else {
            Some(None)
        },
    }
}

/// One step of the search for a free WireGuard interface name (see
/// [`slot_step_spec`]).
pub fn wireguard_slot_step(index: u32, listing: &Option<Vec<u8>>) -> (r: SlotStep)
    requires
        index <= 255,
    ensures
        match r {
            SlotStep::Use(name) => slot_step_spec(index, match listing { Some(b) => Some(b@), None => None }) == Some(Some(name@)),
            SlotStep::Next(i) => i == index + 1 && slot_step_spec(index, match listing { Some(b) => Some(b@), None => None }) == Some(None::<Seq<char>>),
            SlotStep::TooMany => slot_step_spec(index, match listing { Some(b) => Some(b@), None => None }) is None,
        },
{
    let name = wireguard_interface(index);
    match listing {
        None => SlotStep::Use(name),
        Some(out) => {
            let text = utf8_lossy(out.as_slice());
            if !str_contains(text.as_str(), name.as_str()) {
                SlotStep::Use(name)
            } else if index + 1 > 255 {
                SlotStep::TooMany
            } else {
                SlotStep::Next(index + 1)
            }
        },
    }
}

/// The message when every WireGuard interface name is taken.
pub fn too_many_interfaces_message() -> (s: String)
    ensures
        s@ == "Too many virtual WireGuard interfaces configured"@,
{
    owned("Too many virtual WireGuard interfaces configured")
}

/// The file name the configuration is written to: `<interface>.conf` for
/// WireGuard, `ovpn_<stamp>.ovpn` for OpenVPN.
pub open spec fn import_file_name(k: VpnKind, wg_iface: Seq<char>, stamp: u64) -> Seq<char> {
    match k {
        VpnKind::WireGuard => wg_iface + ".conf"@,
        VpnKind::OpenVpn => "ovpn_"@ + decimal(stamp as nat) + ".ovpn"@,
    }
}

/// The file name the configuration is written to (see [`import_file_name`]).
pub fn import_file(k: VpnKind, wg_iface: &str, stamp: u64) -> (s: String)
    ensures
        s@ == import_file_name(k, wg_iface@, stamp),
{
    match k {
        VpnKind::WireGuard => {
            let mut s = owned(wg_iface);
            push_str(&mut s, ".conf");
            s
        },
        VpnKind::OpenVpn => {
            let mut s = owned("ovpn_");
            push_decimal(&mut s, stamp);
            push_str(&mut s, ".ovpn");
            s
        },
    }
}

/// The text between the first and the second `c` (to the end when there is
/// no second one), if `c` occurs (`split(c).nth(1)`).
pub open spec fn second_field(s: Seq<char>, c: char) -> Option<Seq<char>> {
    match first_index_of(s, c) {
        None => None,
        Some(i) => {
            let rest = s.skip(i + 1);
            Some(match first_index_of(rest, c) {
                Some(j) => rest.take(j),
                None => rest,
            })
        },
    }
}

/// `s` without the suffix `x`, when it ends with it.
pub open spec fn without_suffix(s: Seq<char>, x: Seq<char>) -> Option<Seq<char>> {
    if x.len() <= s.len() && s.skip(s.len() - x.len()) == x {
        Some(s.take(s.len() - x.len()))
    } else {
        None
    }
}

/// The name the importer gave the new profile: the first quoted text of its
/// output, or else the file name without its extension.
pub open spec fn imported_name(stdout: Seq<u8>, file: Seq<char>) -> Seq<char> {
    match second_field(lossy_text(stdout), '\'') {
        Some(n) => n,
        None => match without_suffix(file, ".conf"@) {
            Some(f) => f,
            None => match without_suffix(file, ".ovpn"@) {
                Some(f) => f,
                None => file,
            },
        },
    }
}

fn strip_suffix_exec(s: &str, x: &str) -> (r: Option<String>)
    ensures
        match r {
            Some(t) => without_suffix(s@, x@) == Some(t@),
            None => without_suffix(s@, x@) is None,
        },
{
    let v = chars_of(s);
    let w = chars_of(x);
    if w.len() > v.len() {
        return None;
    }
    let start = v.len() - w.len();
    let tail = skip_chars(v.as_slice(), start);
    if !crate::text::str_eq(string_from_chars(tail.as_slice()).as_str(), x) {
        return None;
    }
    let mut head: Vec<char> = Vec::new();
    let mut k: usize = 0;
    while k < start
        invariant
            k <= start,
            start <= v.len(),
            head@ == v@.subrange(0, k as int),
        decreases start - k,
    {
        head.push(v[k]);
        k = k + 1;
    }
    assert(head@ =~= s@.take(s@.len() - x@.len()));
    Some(string_from_chars(head.as_slice()))
}

/// The name the importer gave the new profile (see [`imported_name`]);
/// `file` ends with `.conf` or `.ovpn`.
pub fn imported_connection_name(stdout: &[u8], file: &str) -> (s: String)
    requires
        without_suffix(file@, ".conf"@) is Some || without_suffix(file@, ".ovpn"@) is Some,
    ensures
        s@ == imported_name(stdout@, file@),
{
    let text = utf8_lossy(stdout);
    let v = chars_of(text.as_str());
    match find_char(v.as_slice(), '\'') {
        Some(i) => {
            let rest = skip_chars(v.as_slice(), i + 1);
            match find_char(rest.as_slice(), '\'') {
                Some(j) => {
                    let mut head: Vec<char> = Vec::new();
                    let mut k: usize = 0;
                    while k < j
                        invariant
                            k <= j,
                            j < rest.len(),
                            head@ == rest@.subrange(0, k as int),
                        decreases j - k,
                    {
                        head.push(rest[k]);
                        k = k + 1;
                    }
                    assert(head@ =~= rest@.take(j as int));
                    string_from_chars(head.as_slice())
                },
                None => string_from_chars(rest.as_slice()),
            }
        },
        None => match strip_suffix_exec(file, ".conf") {
            Some(f) => f,
            None => match strip_suffix_exec(file, ".ovpn") {
                Some(f) => f,
                None => owned(file),
            },
        },
    }
}

/// The name shown for the imported profile: the chosen name with a stamp.
pub open spec fn display_name(name: Seq<char>, stamp: u64) -> Seq<char> {
    name + " ("@ + decimal(stamp as nat) + ")"@
}

/// The name shown for the imported profile (see [`display_name`]).
pub fn display_id(name: &str, stamp: u64) -> (s: String)
    ensures
        s@ == display_name(name@, stamp),
{
    let mut s = owned(name);
    push_str(&mut s, " (");
    push_decimal(&mut s, stamp);
    push_str(&mut s, ")");
    s
}

/// The command that imports the configuration file at `path`.
pub fn import_command(k: VpnKind, path: &str) -> (c: Command)
    ensures
        c@ == (CommandView {
            program: "nmcli"@,
            args: seq!["connection"@, "import"@, "type"@, import_type_of(k), "file"@, path@],
            wait: true,
        }),
{
    let mut args: Vec<String> = Vec::new();
    args.push(owned("connection"));
    args.push(owned("import"));
    args.push(owned("type"));
    args.push(import_type(k));
    args.push(owned("file"));
    args.push(owned(path));
    let c = Command { program: owned("nmcli"), args: args, wait: true };
    assert(c@.args =~= seq!["connection"@, "import"@, "type"@, import_type_of(k), "file"@, path@]);
    c
}

/// The command that renames the profile `source` to `display`.
pub fn rename_command(source: &str, display: &str) -> (c: Command)
    ensures
        c@ == (CommandView {
            program: "nmcli"@,
            args: seq!["connection"@, "modify"@, source@, "connection.id"@, display@],
            wait: true,
        }),
{
    let mut args: Vec<String> = Vec::new();
    args.push(owned("connection"));
    args.push(owned("modify"));
    args.push(owned(source));
    args.push(owned("connection.id"));
    args.push(owned(display));
    let c = Command { program: owned("nmcli"), args: args, wait: true };
    assert(c@.args =~= seq!["connection"@, "modify"@, source@, "connection.id"@, display@]);
    c
}

/// The command that lists the stored connections.
pub fn list_connections_command() -> (c: Command)
    ensures
        c@ == (CommandView { program: "nmcli"@, args: seq!["connection"@, "show"@], wait: true }),
{
    let mut args: Vec<String> = Vec::new();
    args.push(owned("connection"));
    args.push(owned("show"));
    let c = Command { program: owned("nmcli"), args: args, wait: true };
    assert(c@.args =~= seq!["connection"@, "show"@]);
    c
}

// ---------------------------------------------------------------------------
// Scanning
// ---------------------------------------------------------------------------

/// The stamp of an OpenVPN file name: the milliseconds since the epoch
/// modulo 100000, 0 when the clock is before the epoch.
pub fn file_stamp(millis: Option<u64>) -> (s: u64)
    ensures
        s == match millis {
            Some(m) => m % 100000,
            None => 0,
        },
{
    match millis {
        Some(m) => m % 100000,
        None => 0,
    }
}

/// The stamp added to the name of an imported profile: the milliseconds
/// since the epoch modulo 1000, 0 when the clock is before the epoch.
pub fn name_stamp(millis: Option<u64>) -> (s: u64)
    ensures
        s == match millis {
            Some(m) => m % 1000,
            None => 0,
        },
{
    match millis {
        Some(m) => m % 1000,
        None => 0,
    }
}

/// Whether the camera frame numbered `count` (from 1) is searched for a QR
/// code: one frame in five.
pub fn decode_this_frame(count: u64) -> (b: bool)
    ensures
        b == (count % 5 == 0),
{
    count % 5 == 0
}

/// The first decoded text that carries a VPN configuration, with its kind.
pub open spec fn first_vpn_payload(decoded: Seq<Option<Seq<char>>>) -> Option<(Seq<char>, VpnKind)>
    decreases decoded.len(),
{
    if decoded.len() == 0 {
        None
    } else {
        match decoded[0] {
            Some(t) => match vpn_kind_of(t) {
                Some(k) => Some((t, k)),
                None => first_vpn_payload(decoded.drop_first()),
            },
            None => first_vpn_payload(decoded.drop_first()),
        }
    }
}

/// The views of decoded texts (`None` for a code that failed to decode).
pub open spec fn decoded_views(v: Seq<Option<String>>) -> Seq<Option<Seq<char>>> {
    v.map_values(|o: Option<String>| crate::scan::opt_text(o))
}

/// The first decoded text of a frame that carries a VPN configuration (see
/// [`first_vpn_payload`]).
pub fn find_vpn_payload(decoded: &Vec<Option<String>>) -> (r: Option<(String, VpnKind)>)
    ensures
        match r {
            Some((t, k)) => first_vpn_payload(decoded_views(decoded@)) == Some((t@, k)),
            None => first_vpn_payload(decoded_views(decoded@)) is None,
        },
{
    let ghost dv = decoded_views(decoded@);
    let mut i: usize = 0;
    assert(dv.skip(0) =~= dv);
    while i < decoded.len()
        invariant
            dv == decoded_views(decoded@),
            i <= decoded.len(),
            first_vpn_payload(dv) == first_vpn_payload(dv.skip(i as int)),
        decreases decoded.len() - i,
    {
        assert(dv.skip(i as int).drop_first() =~= dv.skip(i + 1));
        assert(dv.skip(i as int)[0] == crate::scan::opt_text(decoded@[i as int]));
        if let Some(t) = &decoded[i] {
            if let Some(k) = detect_vpn_type(t.as_str()) {
                return Some((t.clone(), k));
            }
        }
        i = i + 1;
    }
    assert(dv.skip(i as int) =~= Seq::<Option<Seq<char>>>::empty());
    None
}

/// What camera frame number `count` (from 1) yields, given what decoding
/// its QR codes gave (`decoded`: one entry per code located, `None` for a
/// code that could not be read; `None` as a whole when decoding the frame
/// failed or was not attempted): nothing unless the frame is one of those
/// searched and its decoding succeeded; otherwise the first code that
/// carries a VPN configuration, with its kind.
pub fn scan_camera_frame(count: u64, decoded: &Option<Vec<Option<String>>>) -> (r: Option<
    (String, VpnKind),
>)
    ensures
        count % 5 != 0 ==> r is None,
        decoded is None ==> r is None,
        count % 5 == 0 && decoded is Some ==> match r {
            Some((t, k)) => first_vpn_payload(decoded_views(decoded->0@)) == Some((t@, k)),
            None => first_vpn_payload(decoded_views(decoded->0@)) is None,
        },
{
    if !decode_this_frame(count) {
        return None;
    }
    match decoded {
        Some(d) => find_vpn_payload(d),
        None => None,
    }
}

/// The name typed for the imported VPN, trimmed; `None` (nothing is saved)
/// when it is blank.
pub fn vpn_name_entry(text: &str) -> (r: Option<String>)
    ensures
        match r {
            Some(n) => n@ == crate::text::trim(text@) && n@.len() > 0,
            None => crate::text::trim(text@).len() == 0,
        },
{
    let n = crate::text::str_trim(text);
    if n.as_str().unicode_len() == 0 {
        None
    } else {
        Some(n)
    }
}

} // verus!
