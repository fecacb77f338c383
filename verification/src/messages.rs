//! The texts the panel shows: friendlier error messages, the prompts of the
//! password and pairing dialogs, the rows of the details views, the wired
//! device rows, and the battery and status indicators.

use vstd::prelude::*;
use crate::network::text_views;
use crate::wired::{NetworkDetails, NetworkDetailsView, WiredProfile, WiredProfileView};
use crate::dns::{joined, join_texts};
use crate::text::{
    contains_seq, lowercase, to_lowercase, str_contains, owned, push_str, push_decimal,
    push_padded_decimal, decimal, zero_padded, trim, str_trim, str_eq,
};

verus! {

// ---------------------------------------------------------------------------
// Errors
// ---------------------------------------------------------------------------

/// The message shown for an error reported by the network or Bluetooth
/// service: known failures, recognised in the lower-cased text, get a plain
/// sentence; anything else is shown as it is.
pub open spec fn friendly_error(msg: Seq<char>) -> Seq<char> {
    let l = lowercase(msg);
    if contains_seq(l, "bad-password"@) || contains_seq(l, "invalid-key"@) {
        "Incorrect password. Please try again."@
    } else if contains_seq(l, "timeout"@) {
        "Connection timed out."@
    } else if contains_seq(l, "busy"@) || contains_seq(l, "in progress"@) {
        "Device is busy. Please wait and try again."@
    } else if contains_seq(l, "adapter-not-powered"@) || contains_seq(l, "not powered"@) {
        "Bluetooth adapter is not powered on yet."@
    } else if contains_seq(l, "rfkill"@) || contains_seq(l, "blocked"@) {
        "Bluetooth is blocked by system (RFKill). Try unblocking it manually."@
    } else {
        msg
    }
}

/// The message shown for an error (see [`friendly_error`]).
pub fn sanitize_error_message(msg: &str) -> (s: String)
    ensures
        s@ == friendly_error(msg@),
{
    let l = to_lowercase(msg);
    let t = l.as_str();
    if str_contains(t, "bad-password") || str_contains(t, "invalid-key") {
        owned("Incorrect password. Please try again.")
    } else if str_contains(t, "timeout") {
        owned("Connection timed out.")
    } else if str_contains(t, "busy") || str_contains(t, "in progress") {
        owned("Device is busy. Please wait and try again.")
    } else if str_contains(t, "adapter-not-powered") || str_contains(t, "not powered") {
        owned("Bluetooth adapter is not powered on yet.")
    } else if str_contains(t, "rfkill") || str_contains(t, "blocked") {
        owned("Bluetooth is blocked by system (RFKill). Try unblocking it manually.")
    } else {
        owned(msg)
    }
}

// ---------------------------------------------------------------------------
// Dialog prompts
// ---------------------------------------------------------------------------

/// The prompt of the password dialog.
pub fn password_prompt(ssid: &str) -> (s: String)
    ensures
        s@ == "Enter password for "@ + ssid@ + ":"@,
{
    let mut s = owned("Enter password for ");
    push_str(&mut s, ssid);
    push_str(&mut s, ":");
    s
}

/// The prompt when a Bluetooth device asks for a PIN.
pub fn pin_request_prompt(device: &str) -> (s: String)
    ensures
        s@ == "Enter PIN for "@ + device@ + ":"@,
{
    let mut s = owned("Enter PIN for ");
    push_str(&mut s, device);
    push_str(&mut s, ":");
    s
}

/// The prompt when a Bluetooth device asks for a passkey.
pub fn passkey_request_prompt(device: &str) -> (s: String)
    ensures
        s@ == "Enter Passkey for "@ + device@ + ":"@,
{
    let mut s = owned("Enter Passkey for ");
    push_str(&mut s, device);
    push_str(&mut s, ":");
    s
}

/// A passkey as shown to the user: six digits, zero-padded.
pub open spec fn passkey_digits(passkey: u32) -> Seq<char> {
    zero_padded(decimal(passkey as nat), 6)
}

/// The question when a device asks to confirm a passkey.
pub fn confirm_prompt(device: &str, passkey: u32) -> (s: String)
    ensures
        s@ == "Does "@ + device@ + " show passkey "@ + passkey_digits(passkey) + "?"@,
{
    let mut s = owned("Does ");
    push_str(&mut s, device);
    push_str(&mut s, " show passkey ");
    push_padded_decimal(&mut s, passkey as u64, 6);
    push_str(&mut s, "?");
    s
}

/// The message when a PIN must be typed on the device.
pub fn pin_display_prompt(device: &str, pin: &str) -> (s: String)
    ensures
        s@ == "Pairing with "@ + device@ + ". Enter this PIN on the device: "@ + pin@,
{
    let mut s = owned("Pairing with ");
    push_str(&mut s, device);
    push_str(&mut s, ". Enter this PIN on the device: ");
    push_str(&mut s, pin);
    s
}

/// The message when a passkey must be typed on the device.
pub fn passkey_display_prompt(device: &str, passkey: u32) -> (s: String)
    ensures
        s@ == "Pairing with "@ + device@ + ". Enter this passkey on the device: "@
            + passkey_digits(passkey),
{
    let mut s = owned("Pairing with ");
    push_str(&mut s, device);
    push_str(&mut s, ". Enter this passkey on the device: ");
    push_padded_decimal(&mut s, passkey as u64, 6);
    s
}

// ---------------------------------------------------------------------------
// Network details
// ---------------------------------------------------------------------------

/// One row of the network details view.
pub struct DetailRow {
    pub label: String,
    pub value: String,
    pub icon: String,
}

/// `v`, or "N/A" when it is empty.
pub open spec fn or_na(v: Seq<char>) -> Seq<char> {
    if v.len() == 0 {
        "N/A"@
    } else {
        v
    }
}

/// The first entry of a list, or "N/A" when it is empty.
pub open spec fn first_or_na(v: Seq<Seq<char>>) -> Seq<char> {
    if v.len() == 0 {
        "N/A"@
    } else {
        v[0]
    }
}

/// The rows of the details view, as (label, value, icon): the SSID, both
/// addresses, the gateway, the first name server of each family, the MAC
/// address and the speed, each empty value shown as "N/A" (the SSID as it
/// is).
pub open spec fn detail_rows_of(d: NetworkDetailsView) -> Seq<(Seq<char>, Seq<char>, Seq<char>)> {
    seq![
        ("SSID"@, d.ssid, "network-wireless-symbolic"@),
        ("IPv4 Address"@, or_na(d.ip4_address), "network-server-symbolic"@),
        ("IPv6 Address"@, or_na(d.ip6_address), "network-server-symbolic"@),
        ("Gateway"@, or_na(d.gateway), "network-vpn-symbolic"@),
        ("IPv4 DNS"@, first_or_na(d.ipv4_dns), "system-run-symbolic"@),
        ("IPv6 DNS"@, first_or_na(d.ipv6_dns), "system-run-symbolic"@),
        ("MAC Address"@, or_na(d.mac_address), "dialog-password-symbolic"@),
        ("Speed"@, or_na(d.connection_speed), "network-transmit-receive-symbolic"@),
    ]
}

/// The texts of a details row.
pub open spec fn row_view(r: DetailRow) -> (Seq<char>, Seq<char>, Seq<char>) {
    (r.label@, r.value@, r.icon@)
}

fn text_or_na(v: &String) -> (s: String)
    ensures
        s@ == or_na(v@),
{
    if v.as_str().unicode_len() == 0 {
        owned("N/A")
    } else {
        v.clone()
    }
}

fn first_text_or_na(v: &Vec<String>) -> (s: String)
    ensures
        s@ == first_or_na(text_views(v@)),
{
    if v.len() == 0 {
        owned("N/A")
    } else {
        v[0].clone()
    }
}

fn detail_row(label: &str, value: String, icon: &str) -> (r: DetailRow)
    ensures
        row_view(r) == (label@, value@, icon@),
{
    DetailRow { label: owned(label), value, icon: owned(icon) }
}

/// The rows of the details view (see [`detail_rows_of`]).
pub fn network_detail_rows(d: &NetworkDetails) -> (rows: Vec<DetailRow>)
    ensures
        rows@.map_values(|r: DetailRow| row_view(r)) == detail_rows_of(d@),
{
    let mut rows: Vec<DetailRow> = Vec::new();
    rows.push(detail_row("SSID", d.ssid.clone(), "network-wireless-symbolic"));
    rows.push(detail_row("IPv4 Address", text_or_na(&d.ip4_address), "network-server-symbolic"));
    rows.push(detail_row("IPv6 Address", text_or_na(&d.ip6_address), "network-server-symbolic"));
    rows.push(detail_row("Gateway", text_or_na(&d.gateway), "network-vpn-symbolic"));
    rows.push(detail_row("IPv4 DNS", first_text_or_na(&d.ipv4_dns), "system-run-symbolic"));
    rows.push(detail_row("IPv6 DNS", first_text_or_na(&d.ipv6_dns), "system-run-symbolic"));
    rows.push(detail_row("MAC Address", text_or_na(&d.mac_address), "dialog-password-symbolic"));
    rows.push(
        detail_row("Speed", text_or_na(&d.connection_speed), "network-transmit-receive-symbolic"),
    );
    assert(rows@.map_values(|r: DetailRow| row_view(r)) =~= detail_rows_of(d@));
    rows
}

// ---------------------------------------------------------------------------
// Wired device rows
// ---------------------------------------------------------------------------

/// The icon of a wired device row.
pub open spec fn wired_icon_for(active: bool) -> Seq<char> {
    if active {
        "network-wired-symbolic"@
    } else {
        "network-wired-disconnected-symbolic"@
    }
}

/// The icon of a wired device row (see [`wired_icon_for`]).
pub fn wired_icon_name(p: &WiredProfile) -> (s: String)
    ensures
        s@ == wired_icon_for(p.is_active),
{
    if p.is_active {
        owned("network-wired-symbolic")
    } else {
        owned("network-wired-disconnected-symbolic")
    }
}

/// The status line of a wired device: its address and speed when connected,
/// otherwise whether a cable is plugged in.
pub open spec fn wired_status(p: WiredProfileView) -> Seq<char> {
    if p.is_active {
        if p.ip4_address.len() > 0 {
            "Connected · "@ + p.ip4_address + " · "@ + decimal(p.speed as nat) + " Mb/s"@
        } else {
            "Connected · "@ + decimal(p.speed as nat) + " Mb/s"@
        }
    } else if p.has_carrier {
        "Cable connected · Disconnected"@
    } else {
        "No cable detected"@
    }
}

/// The status line of a wired device (see [`wired_status`]).
pub fn wired_status_text(p: &WiredProfile) -> (s: String)
    ensures
        s@ == wired_status(p@),
{
    if p.is_active {
        let mut s = owned("Connected · ");
        if p.ip4_address.as_str().unicode_len() > 0 {
            push_str(&mut s, p.ip4_address.as_str());
            push_str(&mut s, " · ");
        }
        push_decimal(&mut s, p.speed as u64);
        push_str(&mut s, " Mb/s");
        s
    } else if p.has_carrier {
        owned("Cable connected · Disconnected")
    } else {
        owned("No cable detected")
    }
}

/// The button of a wired device row, with the paths its click acts on.
#[derive(Clone, Debug, PartialEq, Eq)]
pub enum WiredButton {
    /// Deactivate the connection on the device at `device_path`.
    Disconnect { device_path: String },
    /// Activate the saved profile at `connection_path` on the device at
    /// `device_path`.
    Connect { connection_path: String, device_path: String },
    /// No saved profile: nothing to offer.
    Absent,
}

/// The mathematical value of a [`WiredButton`].
pub enum WiredButtonView {
    Disconnect { device_path: Seq<char> },
    Connect { connection_path: Seq<char>, device_path: Seq<char> },
    Absent,
}

impl View for WiredButton {
    type V = WiredButtonView;

    open spec fn view(&self) -> WiredButtonView {
        match self {
            WiredButton::Disconnect { device_path } => WiredButtonView::Disconnect {
                device_path: device_path@,
            },
            WiredButton::Connect { connection_path, device_path } => WiredButtonView::Connect {
                connection_path: connection_path@,
                device_path: device_path@,
            },
            WiredButton::Absent => WiredButtonView::Absent,
        }
    }
}

/// The button of a wired device row: only a device with a saved profile has
/// one. Disconnect acts on the device path; Connect on the profile's
/// connection path and the device path.
pub open spec fn wired_button_for(p: WiredProfileView) -> WiredButtonView {
    if p.is_active && p.connection_path.len() > 0 {
        WiredButtonView::Disconnect { device_path: p.device_path }
    } else if p.connection_path.len() > 0 {
        WiredButtonView::Connect { connection_path: p.connection_path, device_path: p.device_path }
    } else {
        WiredButtonView::Absent
    }
}

/// The button of a wired device row (see [`wired_button_for`]).
pub fn wired_button(p: &WiredProfile) -> (b: WiredButton)
    ensures
        b@ == wired_button_for(p@),
{
    let has_profile = p.connection_path.as_str().unicode_len() > 0;
    if p.is_active && has_profile {
        WiredButton::Disconnect { device_path: p.device_path.clone() }
    } else if has_profile {
        WiredButton::Connect {
            connection_path: p.connection_path.clone(),
            device_path: p.device_path.clone(),
        }
    } else {
        WiredButton::Absent
    }
}

/// The expandable details of a wired device row.
pub struct WiredDetails {
    /// "MAC: ..." when the address is known.
    pub mac_line: Option<String>,
    /// "Gateway: ..." for an active connection with a gateway.
    pub gateway_line: Option<String>,
    /// "DNS: ..." for an active connection with name servers.
    pub dns_line: Option<String>,
    /// The auto-connect switch, shown when there is a saved profile: the
    /// connection path it changes and the value it starts at (the profile's
    /// auto-connect setting).
    pub autoconnect_switch: Option<(String, bool)>,
}

/// Whether a wired device row can be expanded.
pub open spec fn has_wired_details(p: WiredProfileView) -> bool {
    p.is_active || p.mac_address.len() > 0
}

/// The details of a wired device row, when it has any.
pub open spec fn wired_details_of(p: WiredProfileView) -> Option<
    (Option<Seq<char>>, Option<Seq<char>>, Option<Seq<char>>, Option<(Seq<char>, bool)>),
> {
    if has_wired_details(p) {
        Some(
            (
                if p.mac_address.len() > 0 {
                    Some("MAC: "@ + p.mac_address)
                } else {
                    None
                },
                if p.is_active && p.gateway.len() > 0 {
                    Some("Gateway: "@ + p.gateway)
                } else {
                    None
                },
                if p.is_active && p.dns_servers.len() > 0 {
                    Some("DNS: "@ + joined(p.dns_servers, ", "@))
                } else {
                    None
                },
                if p.connection_path.len() > 0 {
                    Some((p.connection_path, p.autoconnect))
                } else {
                    None
                },
            ),
        )
    } else {
        None
    }
}

fn labelled(label: &str, value: &str) -> (s: String)
    ensures
        s@ == label@ + value@,
{
    let mut s = owned(label);
    push_str(&mut s, value);
    s
}

/// The details of a wired device row (see [`wired_details_of`]).
pub fn wired_details(p: &WiredProfile) -> (r: Option<WiredDetails>)
    ensures
        match r {
            Some(w) => wired_details_of(p@) == Some(
                (
                    crate::scan::opt_text(w.mac_line),
                    crate::scan::opt_text(w.gateway_line),
                    crate::scan::opt_text(w.dns_line),
                    match w.autoconnect_switch {
                        Some((c, a)) => Some((c@, a)),
                        None => None,
                    },
                ),
            ),
            None => wired_details_of(p@) is None,
        },
{
    let has_mac = p.mac_address.as_str().unicode_len() > 0;
    if !(p.is_active || has_mac) {
        return None;
    }
    let mac_line = if has_mac {
        Some(labelled("MAC: ", p.mac_address.as_str()))
    } else {
        None
    };
    let gateway_line = if p.is_active && p.gateway.as_str().unicode_len() > 0 {
        Some(labelled("Gateway: ", p.gateway.as_str()))
    } else {
        None
    };
    let dns_line = if p.is_active && p.dns_servers.len() > 0 {
        let text = join_texts(&p.dns_servers, ", ");
        Some(labelled("DNS: ", text.as_str()))
    } else {
        None
    };
    Some(
        WiredDetails {
            mac_line,
            gateway_line,
            dns_line,
            autoconnect_switch: if p.connection_path.as_str().unicode_len() > 0 {
                Some((p.connection_path.clone(), p.autoconnect))
            } else {
                None
            },
        },
    )
}

// ---------------------------------------------------------------------------
// Battery and status indicators
// ---------------------------------------------------------------------------

/// The battery label of the header.
pub open spec fn battery_label_of(percentage: u32, plugged_in: bool) -> Seq<char> {
    if plugged_in {
        "Battery: AC Power"@
    } else {
        "Battery: "@ + decimal(percentage as nat) + "%"@
    }
}

/// The battery label of the header (see [`battery_label_of`]).
pub fn battery_status_label(percentage: u32, plugged_in: bool) -> (s: String)
    ensures
        s@ == battery_label_of(percentage, plugged_in),
{
    if plugged_in {
        owned("Battery: AC Power")
    } else {
        let mut s = owned("Battery: ");
        push_decimal(&mut s, percentage as u64);
        push_str(&mut s, "%");
        s
    }
}

/// The style properties of the header's battery gauge: full and green on AC
/// power, otherwise filled to the level, red at 15% and below, blue above.
pub open spec fn battery_style_of(percentage: u32, plugged_in: bool) -> Seq<char> {
    if plugged_in {
        "--bat-pct: 100%; --bat-color: #2ec27e;"@
    } else if percentage <= 15 {
        "--bat-pct: "@ + decimal(percentage as nat) + "%; --bat-color: #e01b24;"@
    } else {
        "--bat-pct: "@ + decimal(percentage as nat) + "%; --bat-color: #3584e4;"@
    }
}

/// The style properties of the header's battery gauge (see
/// [`battery_style_of`]).
pub fn battery_style(percentage: u32, plugged_in: bool) -> (s: String)
    ensures
        s@ == battery_style_of(percentage, plugged_in),
{
    if plugged_in {
        owned("--bat-pct: 100%; --bat-color: #2ec27e;")
    } else {
        let mut s = owned("--bat-pct: ");
        push_decimal(&mut s, percentage as u64);
        if percentage <= 15 {
            push_str(&mut s, "%; --bat-color: #e01b24;");
        } else {
            push_str(&mut s, "%; --bat-color: #3584e4;");
        }
        s
    }
}

/// The interfaces whose presence means a VPN tunnel is up.
pub open spec fn vpn_interface_list() -> Seq<Seq<char>> {
    seq!["tun0"@, "wg0"@, "ppp0"@, "nordlynx"@]
}

/// The interfaces whose presence means a VPN tunnel is up (see
/// [`vpn_interface_list`]).
pub fn vpn_interface_names() -> (v: Vec<String>)
    ensures
        text_views(v@) == vpn_interface_list(),
{
    let mut v: Vec<String> = Vec::new();
    v.push(owned("tun0"));
    v.push(owned("wg0"));
    v.push(owned("ppp0"));
    v.push(owned("nordlynx"));
    assert(text_views(v@) =~= vpn_interface_list());
    v
}

/// Whether the network interface `name`, whose `carrier` file reads
/// `carrier`, gives a working link: not the loopback, not a VPN tunnel, and
/// with a carrier of "1".
pub open spec fn is_uplink(name: Seq<char>, carrier: Seq<char>) -> bool {
    name != "lo"@ && !vpn_interface_list().contains(name) && trim(carrier) == "1"@
}

/// Whether an interface gives a working link (see [`is_uplink`]).
pub fn counts_as_uplink(name: &str, carrier: &str) -> (b: bool)
    ensures
        b == is_uplink(name@, carrier@),
{
    if str_eq(name, "lo") {
        return false;
    }
    let tunnels = vpn_interface_names();
    let mut i: usize = 0;
    while i < tunnels.len()
        invariant
            text_views(tunnels@) == vpn_interface_list(),
            i <= tunnels.len(),
            forall|k: int| 0 <= k < i ==> vpn_interface_list()[k] != name@,
        decreases tunnels.len() - i,
    {
        if str_eq(tunnels[i].as_str(), name) {
            assert(vpn_interface_list()[i as int] == tunnels@[i as int]@);
            return false;
        }
        assert(vpn_interface_list()[i as int] == tunnels@[i as int]@);
        i = i + 1;
    }
    let c = str_trim(carrier);
    str_eq(c.as_str(), "1")
}

/// A battery charge in percent, held between 0 and 100.
pub open spec fn clamped_charge(charge: i32) -> int {
    if charge < 0 {
        0
    } else if charge > 100 {
        100
    } else {
        charge as int
    }
}

/// The battery part of the status line: a plug while charging, an empty
/// battery at 10% and below, a battery otherwise, then the level.
pub open spec fn battery_part_of(charge: i32, charging: bool) -> Seq<char> {
    let c = clamped_charge(charge);
    let icon = if charging {
        "🔌"@
    } else if c <= 10 {
        "🪫"@
    } else {
        "🔋"@
    };
    icon + " "@ + decimal(c as nat) + "%"@
}

/// The status line's icons: a lock when a VPN is up, a globe when a link
/// works (a plane otherwise), and the battery when there is one, trimmed.
pub open spec fn status_icons_of(vpn_up: bool, link_up: bool, battery: Option<(i32, bool)>) -> Seq<
    char,
> {
    let vpn = if vpn_up {
        "🔒 "@
    } else {
        ""@
    };
    let net = if link_up {
        "🌐 "@
    } else {
        "✈️ "@
    };
    let bat = match battery {
        Some((charge, charging)) => battery_part_of(charge, charging),
        None => ""@,
    };
    trim(vpn + net + bat)
}

/// The status line's icons (see [`status_icons_of`]); `battery` holds the
/// charge in whole percent and whether the battery is charging.
pub fn status_icons(vpn_up: bool, link_up: bool, battery: Option<(i32, bool)>) -> (s: String)
    ensures
        s@ == status_icons_of(vpn_up, link_up, battery),
{
    let mut line = String::new();
    if vpn_up {
        push_str(&mut line, "🔒 ");
    } else {
        push_str(&mut line, "");
    }
    if link_up {
        push_str(&mut line, "🌐 ");
    } else {
        push_str(&mut line, "✈️ ");
    }
    let ghost head = line@;
    match battery {
        Some((charge, charging)) => {
            let c: i32 = if charge < 0 {
                0
            } else if charge > 100 {
                100
            } else {
                charge
            };
            if charging {
                push_str(&mut line, "🔌");
            } else if c <= 10 {
                push_str(&mut line, "🪫");
            } else {
                push_str(&mut line, "🔋");
            }
            push_str(&mut line, " ");
            push_decimal(&mut line, c as u64);
            push_str(&mut line, "%");
            assert(line@ =~= head + battery_part_of(charge, charging));
        },
        None => {
            push_str(&mut line, "");
        },
    }
    assert(line@ =~= (if vpn_up { "🔒 "@ } else { ""@ }) + (if link_up { "🌐 "@ } else { "✈️ "@ })
        + match battery {
        Some((charge, charging)) => battery_part_of(charge, charging),
        None => ""@,
    });
    str_trim(line.as_str())
}

} // verus!
