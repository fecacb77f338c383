//! Wired profiles and the details of the current connection.

use vstd::prelude::*;
use vstd::string::*;
use crate::network::{ConnectionSettings, ConnectionSettingsView, settings_views, text_views, opt_view, text_or_empty, string_or_empty};
use crate::text::{decimal, decimal_string, push_str, owned};

verus! {

/// The last text of `s`, or the empty text (the last entry of an address
/// list wins).
pub open spec fn last_or_empty(s: Seq<Seq<char>>) -> Seq<char> {
    if s.len() == 0 { Seq::empty() } else { s.last() }
}

/// A copy of the last entry of `v`, or the empty string.
pub fn last_string(v: &Vec<String>) -> (r: String)
    ensures
        r@ == last_or_empty(text_views(v@)),
{
    if v.len() == 0 {
        String::new()
    } else {
        v[v.len() - 1].clone()
    }
}

/// A copy of a list of strings.
pub fn copy_strings(v: &Vec<String>) -> (r: Vec<String>)
    ensures
        text_views(r@) == text_views(v@),
{
    let mut r: Vec<String> = Vec::new();
    let mut i: usize = 0;
    while i < v.len()
        invariant
            i <= v.len(),
            r.len() == i,
            forall|k: int| 0 <= k < i ==> #[trigger] r@[k]@ == v@[k]@,
        decreases v.len() - i,
    {
        r.push(v[i].clone());
        i = i + 1;
    }
    assert forall|k: int| 0 <= k < r.len() implies text_views(r@)[k] == text_views(v@)[k] by {
        assert(r@[k]@ == v@[k]@);
    }
    assert(text_views(r@) =~= text_views(v@));
    r
}

/// Whether an object path refers to an object (the path `/` stands for none).
pub fn is_set_path(p: &str) -> (r: bool)
    ensures
        r == (p@ != "/"@),
{
    !crate::text::str_eq(p, "/")
}

/// IPv4 configuration data: the `address` entries of `AddressData` in
/// order, the gateway, and the `address` entries of `NameserverData`.
pub struct Ip4Data {
    pub addresses: Vec<String>,
    pub gateway: Option<String>,
    pub dns: Vec<String>,
}

/// The mathematical value of an [`Ip4Data`].
pub struct Ip4DataView {
    pub addresses: Seq<Seq<char>>,
    pub gateway: Option<Seq<char>>,
    pub dns: Seq<Seq<char>>,
}

impl View for Ip4Data {
    type V = Ip4DataView;

    open spec fn view(&self) -> Ip4DataView {
        Ip4DataView {
            addresses: text_views(self.addresses@),
            gateway: opt_view(self.gateway),
            dns: text_views(self.dns@),
        }
    }
}

// ---------------------------------------------------------------------------
// Wired profiles
// ---------------------------------------------------------------------------

/// One wired device with its current connection.
#[derive(Clone, Debug, Default)]
pub struct WiredProfile {
    pub name: String,
    pub device_name: String,
    pub device_path: String,
    pub connection_path: String,
    pub is_active: bool,
    pub has_carrier: bool,
    pub speed: u32,
    pub mac_address: String,
    pub ip4_address: String,
    pub gateway: String,
    pub dns_servers: Vec<String>,
    pub autoconnect: bool,
}

/// The mathematical value of a [`WiredProfile`].
pub struct WiredProfileView {
    pub name: Seq<char>,
    pub device_name: Seq<char>,
    pub device_path: Seq<char>,
    pub connection_path: Seq<char>,
    pub is_active: bool,
    pub has_carrier: bool,
    pub speed: u32,
    pub mac_address: Seq<char>,
    pub ip4_address: Seq<char>,
    pub gateway: Seq<char>,
    pub dns_servers: Seq<Seq<char>>,
    pub autoconnect: bool,
}

impl View for WiredProfile {
    type V = WiredProfileView;

    open spec fn view(&self) -> WiredProfileView {
        WiredProfileView {
            name: self.name@,
            device_name: self.device_name@,
            device_path: self.device_path@,
            connection_path: self.connection_path@,
            is_active: self.is_active,
            has_carrier: self.has_carrier,
            speed: self.speed,
            mac_address: self.mac_address@,
            ip4_address: self.ip4_address@,
            gateway: self.gateway@,
            dns_servers: text_views(self.dns_servers@),
            autoconnect: self.autoconnect,
        }
    }
}

/// What is read of a wired device's active connection.
pub struct ActiveWired {
    /// The connection's id, when readable as text.
    pub id: Option<String>,
    /// The path of the connection's profile when the property could be read
    /// (`/` when it was not a path).
    pub connection: Option<String>,
    /// The IPv4 data, when the connection has an IPv4 configuration.
    pub ip4: Option<Ip4Data>,
    /// `connection.autoconnect` of the profile at `connection`, when readable.
    pub profile_autoconnect: Option<bool>,
}

/// The mathematical value of an [`ActiveWired`].
pub struct ActiveWiredView {
    pub id: Option<Seq<char>>,
    pub connection: Option<Seq<char>>,
    pub ip4: Option<Ip4DataView>,
    pub profile_autoconnect: Option<bool>,
}

impl View for ActiveWired {
    type V = ActiveWiredView;

    open spec fn view(&self) -> ActiveWiredView {
        ActiveWiredView {
            id: opt_view(self.id),
            connection: opt_view(self.connection),
            ip4: match self.ip4 { Some(d) => Some(d@), None => None },
            profile_autoconnect: self.profile_autoconnect,
        }
    }
}

/// What is read of one wired device; `None` marks unreadable properties.
pub struct WiredDevice {
    pub device_path: String,
    pub interface: Option<String>,
    pub carrier: Option<bool>,
    pub speed: Option<u32>,
    pub hw_address: Option<String>,
    /// The active connection, when the device has one.
    pub active: Option<ActiveWired>,
}

/// The mathematical value of a [`WiredDevice`].
pub struct WiredDeviceView {
    pub device_path: Seq<char>,
    pub interface: Option<Seq<char>>,
    pub carrier: Option<bool>,
    pub speed: Option<u32>,
    pub hw_address: Option<Seq<char>>,
    pub active: Option<ActiveWiredView>,
}

impl View for WiredDevice {
    type V = WiredDeviceView;

    open spec fn view(&self) -> WiredDeviceView {
        WiredDeviceView {
            device_path: self.device_path@,
            interface: opt_view(self.interface),
            carrier: self.carrier,
            speed: self.speed,
            hw_address: opt_view(self.hw_address),
            active: match self.active { Some(a) => Some(a@), None => None },
        }
    }
}

/// A stored Ethernet profile bound to the interface `iface`.
pub open spec fn is_ethernet_for(c: ConnectionSettingsView, iface: Seq<char>) -> bool {
    c.conn_type == Some("802-3-ethernet"@) && c.interface_name == Some(iface)
}

/// The first stored Ethernet profile bound to `iface`.
pub open spec fn first_ethernet_for(cs: Seq<ConnectionSettingsView>, iface: Seq<char>) -> Option<ConnectionSettingsView>
    decreases cs.len(),
{
    if cs.len() == 0 {
        None
    } else if is_ethernet_for(cs[0], iface) {
        Some(cs[0])
    } else {
        first_ethernet_for(cs.drop_first(), iface)
    }
}

/// The interface name of a device ("Unknown" when unreadable).
pub open spec fn interface_of(d: WiredDeviceView) -> Seq<char> {
    match d.interface { Some(i) => i, None => "Unknown"@ }
}

/// The wired profile of a device: named by the active connection's id, or by
/// the interface; the profile path is the active connection's, or else that of
/// the first stored Ethernet profile bound to the interface, which then also
/// names it and gives its auto-connect setting; addresses come from the
/// active IPv4 configuration; missing values are empty, zero or false, and
/// auto-connect is on unless a profile says otherwise.
pub open spec fn wired_profile(d: WiredDeviceView, saved: Seq<ConnectionSettingsView>) -> WiredProfileView {
    let iface = interface_of(d);
    let base_name = match d.active {
        Some(a) => match a.id { Some(id) => id, None => iface },
        None => iface,
    };
    let active_path = match d.active {
        Some(a) => match a.connection { Some(p) => p, None => Seq::empty() },
        None => Seq::empty(),
    };
    let ip4 = match d.active {
        Some(a) => a.ip4,
        None => None,
    };
    let fallback = first_ethernet_for(saved, iface);
    let (name, connection_path, autoconnect) = if active_path.len() == 0 {
        match fallback {
            Some(c) => (
                match c.id { Some(id) => id, None => base_name },
                c.path,
                match c.autoconnect { Some(b) => b, None => true },
            ),
            None => (base_name, active_path, true),
        }
    } else {
        (base_name, active_path, match d.active {
            Some(a) => match a.profile_autoconnect { Some(b) => b, None => true },
            None => true,
        })
    };
    WiredProfileView {
        name: name,
        device_name: iface,
        device_path: d.device_path,
        connection_path: connection_path,
        is_active: d.active is Some,
        has_carrier: match d.carrier { Some(b) => b, None => false },
        speed: match d.speed { Some(s) => s, None => 0 },
        mac_address: text_or_empty(d.hw_address),
        ip4_address: match ip4 { Some(x) => last_or_empty(x.addresses), None => Seq::empty() },
        gateway: match ip4 { Some(x) => text_or_empty(x.gateway), None => Seq::empty() },
        dns_servers: match ip4 { Some(x) => x.dns, None => Seq::empty() },
        autoconnect: autoconnect,
    }
}

fn find_ethernet_for(saved: &Vec<ConnectionSettings>, iface: &str) -> (r: Option<usize>)
    ensures
        match r {
            Some(k) => k < saved.len() && first_ethernet_for(settings_views(saved@), iface@) == Some(saved@[k as int]@),
            None => first_ethernet_for(settings_views(saved@), iface@) is None,
        },
{
    let ghost cs = settings_views(saved@);
    assert(cs.skip(0) =~= cs);
    let mut i: usize = 0;
    while i < saved.len()
        invariant
            cs == settings_views(saved@),
            i <= saved.len(),
            first_ethernet_for(cs, iface@) == first_ethernet_for(cs.skip(i as int), iface@),
        decreases saved.len() - i,
    {
        let c = &saved[i];
        let is_eth = match &c.conn_type {
            Some(t) => crate::text::str_eq(t.as_str(), "802-3-ethernet"),
            None => false,
        };
        let bound = match &c.interface_name {
            Some(n) => crate::text::str_eq(n.as_str(), iface),
            None => false,
        };
        assert(cs.skip(i as int)[0] == c@);
        if is_eth && bound {
            return Some(i);
        }
        assert(cs.skip(i as int).drop_first() =~= cs.skip(i + 1));
        i = i + 1;
    }
    None
}

/// The wired profile of a device (see [`wired_profile`]); `saved` are the
/// stored profiles.
pub fn wired_profile_of(d: &WiredDevice, saved: &Vec<ConnectionSettings>) -> (p: WiredProfile)
    ensures
        p@ == wired_profile(d@, settings_views(saved@)),
{
    let iface = match &d.interface {
        Some(i) => i.clone(),
        None => owned("Unknown"),
    };
    let mut name = match &d.active {
        Some(a) => match &a.id {
            Some(id) => id.clone(),
            None => iface.clone(),
        },
        None => iface.clone(),
    };
    let mut connection_path = match &d.active {
        Some(a) => match &a.connection {
            Some(p) => p.clone(),
            None => String::new(),
        },
        None => String::new(),
    };
    let no_dns: Vec<String> = Vec::new();
    assert(text_views(no_dns@) =~= Seq::<Seq<char>>::empty());
    let (ip4_address, gateway, dns_servers) = match &d.active {
        Some(a) => match &a.ip4 {
            Some(x) => (last_string(&x.addresses), string_or_empty(&x.gateway), copy_strings(&x.dns)),
            None => (String::new(), String::new(), no_dns),
        },
        None => (String::new(), String::new(), no_dns),
    };
    let mut autoconnect = true;
    if connection_path.as_str().unicode_len() == 0 {
        match find_ethernet_for(saved, iface.as_str()) {
            Some(k) => {
                let c = &saved[k];
                connection_path = c.path.clone();
                match &c.id {
                    Some(id) => { name = id.clone(); },
                    None => {},
                }
                autoconnect = match c.autoconnect { Some(b) => b, None => true };
            },
            None => {},
        }
    } else {
        autoconnect = match &d.active {
            Some(a) => match a.profile_autoconnect { Some(b) => b, None => true },
            None => true,
        };
    }
    let p = WiredProfile {
        name: name,
        device_name: iface,
        device_path: d.device_path.clone(),
        connection_path: connection_path,
        is_active: d.active.is_some(),
        has_carrier: match d.carrier { Some(b) => b, None => false },
        speed: match d.speed { Some(s) => s, None => 0 },
        mac_address: string_or_empty(&d.hw_address),
        ip4_address: ip4_address,
        gateway: gateway,
        dns_servers: dns_servers,
        autoconnect: autoconnect,
    };
    p
}

/// The wired profiles of all wired devices, in device order.
pub fn wired_profiles(devices: &Vec<WiredDevice>, saved: &Vec<ConnectionSettings>) -> (o: Vec<WiredProfile>)
    ensures
        o.len() == devices.len(),
        forall|i: int| 0 <= i < o.len() ==> #[trigger] o@[i]@ == wired_profile(devices@[i]@, settings_views(saved@)),
{
    let mut o: Vec<WiredProfile> = Vec::new();
    let mut i: usize = 0;
    while i < devices.len()
        invariant
            i <= devices.len(),
            o.len() == i,
            forall|k: int| 0 <= k < i ==> #[trigger] o@[k]@ == wired_profile(devices@[k]@, settings_views(saved@)),
        decreases devices.len() - i,
    {
        o.push(wired_profile_of(&devices[i], saved));
        i = i + 1;
    }
    o
}

// ---------------------------------------------------------------------------
// Connection details
// ---------------------------------------------------------------------------

/// The details shown for a Wi-Fi network.
#[derive(Clone, Debug, Default)]
pub struct NetworkDetails {
    pub ssid: String,
    pub ip4_address: String,
    pub ip6_address: String,
    pub gateway: String,
    pub ipv4_dns: Vec<String>,
    pub ipv6_dns: Vec<String>,
    pub mac_address: String,
    pub connection_speed: String,
    pub is_connected: bool,
}

/// The mathematical value of a [`NetworkDetails`].
pub struct NetworkDetailsView {
    pub ssid: Seq<char>,
    pub ip4_address: Seq<char>,
    pub ip6_address: Seq<char>,
    pub gateway: Seq<char>,
    pub ipv4_dns: Seq<Seq<char>>,
    pub ipv6_dns: Seq<Seq<char>>,
    pub mac_address: Seq<char>,
    pub connection_speed: Seq<char>,
    pub is_connected: bool,
}

impl View for NetworkDetails {
    type V = NetworkDetailsView;

    open spec fn view(&self) -> NetworkDetailsView {
        NetworkDetailsView {
            ssid: self.ssid@,
            ip4_address: self.ip4_address@,
            ip6_address: self.ip6_address@,
            gateway: self.gateway@,
            ipv4_dns: text_views(self.ipv4_dns@),
            ipv6_dns: text_views(self.ipv6_dns@),
            mac_address: self.mac_address@,
            connection_speed: self.connection_speed@,
            is_connected: self.is_connected,
        }
    }
}

/// IPv6 configuration data: the `address` entries of `AddressData` in order,
/// and the name servers, already written out.
pub struct Ip6Data {
    pub addresses: Vec<String>,
    pub dns: Vec<String>,
}

/// The mathematical value of an [`Ip6Data`].
pub struct Ip6DataView {
    pub addresses: Seq<Seq<char>>,
    pub dns: Seq<Seq<char>>,
}

impl View for Ip6Data {
    type V = Ip6DataView;

    open spec fn view(&self) -> Ip6DataView {
        Ip6DataView { addresses: text_views(self.addresses@), dns: text_views(self.dns@) }
    }
}

/// What is read of the first device of the connection.
pub struct DeviceData {
    pub hw_address: Option<String>,
    /// The bit rate in kb/s, when readable.
    pub bitrate: Option<u32>,
}

/// The mathematical value of a [`DeviceData`].
pub struct DeviceDataView {
    pub hw_address: Option<Seq<char>>,
    pub bitrate: Option<u32>,
}

impl View for DeviceData {
    type V = DeviceDataView;

    open spec fn view(&self) -> DeviceDataView {
        DeviceDataView { hw_address: opt_view(self.hw_address), bitrate: self.bitrate }
    }
}

/// What is read of the active connection whose id is the network's SSID.
pub struct ActiveDetails {
    pub ip4: Option<Ip4Data>,
    pub ip6: Option<Ip6Data>,
    pub device: Option<DeviceData>,
}

/// The speed text for a bit rate in kb/s: whole Mb/s, empty when the rate is
/// unknown or zero.
pub open spec fn speed_text(bitrate: Option<u32>) -> Seq<char> {
    match bitrate {
        Some(b) => if b > 0 { decimal((b / 1000) as nat) + " Mb/s"@ } else { Seq::empty() },
        None => Seq::empty(),
    }
}

/// The speed text for a bit rate (see [`speed_text`]).
pub fn connection_speed_text(bitrate: Option<u32>) -> (s: String)
    ensures
        s@ == speed_text(bitrate),
{
    match bitrate {
        Some(b) => {
            if b > 0 {
                let mut s = decimal_string((b / 1000) as u64);
                push_str(&mut s, " Mb/s");
                s
            } else {
                String::new()
            }
        },
        None => String::new(),
    }
}

/// The IPv6 name servers worth writing out: byte strings of exactly sixteen
/// bytes, in order.
pub fn ipv6_nameserver_candidates(entries: &Vec<Vec<u8>>) -> (r: Vec<Vec<u8>>)
    ensures
        r@.map_values(|b: Vec<u8>| b@) == entries@.map_values(|b: Vec<u8>| b@).filter(|b: Seq<u8>| b.len() == 16),
{
    let ghost all = entries@.map_values(|b: Vec<u8>| b@);
    let mut r: Vec<Vec<u8>> = Vec::new();
    let mut i: usize = 0;
    while i < entries.len()
        invariant
            all == entries@.map_values(|b: Vec<u8>| b@),
            i <= entries.len(),
            r@.map_values(|b: Vec<u8>| b@) == all.take(i as int).filter(|b: Seq<u8>| b.len() == 16),
        decreases entries.len() - i,
    {
        reveal_with_fuel(Seq::filter, 1);
        let ghost before = r@.map_values(|b: Vec<u8>| b@);
        assert(all.take(i + 1).drop_last() =~= all.take(i as int));
        if entries[i].len() == 16 {
            r.push(entries[i].clone());
            assert(r@.map_values(|b: Vec<u8>| b@) =~= before.push(all[i as int]));
        }
        i = i + 1;
    }
    assert(all.take(entries.len() as int) =~= all);
    r
}

/// The mathematical value of an [`ActiveDetails`].
pub struct ActiveDetailsView {
    pub ip4: Option<Ip4DataView>,
    pub ip6: Option<Ip6DataView>,
    pub device: Option<DeviceDataView>,
}

impl View for ActiveDetails {
    type V = ActiveDetailsView;

    open spec fn view(&self) -> ActiveDetailsView {
        ActiveDetailsView {
            ip4: match self.ip4 { Some(x) => Some(x@), None => None },
            ip6: match self.ip6 { Some(x) => Some(x@), None => None },
            device: match self.device { Some(x) => Some(x@), None => None },
        }
    }
}

/// The details of the network `ssid`: connected when an active connection
/// carries its name, with the last address of each configuration, the IPv4
/// gateway, the name servers, and the hardware address and speed of the
/// connection's first device; missing values are empty.
pub open spec fn details_view(ssid: Seq<char>, found: Option<ActiveDetailsView>) -> NetworkDetailsView {
    let (ip4, ip6, dev) = match found {
        Some(f) => (f.ip4, f.ip6, f.device),
        None => (None, None, None),
    };
    NetworkDetailsView {
        ssid: ssid,
        ip4_address: match ip4 { Some(x) => last_or_empty(x.addresses), None => Seq::empty() },
        ip6_address: match ip6 { Some(x) => last_or_empty(x.addresses), None => Seq::empty() },
        gateway: match ip4 { Some(x) => text_or_empty(x.gateway), None => Seq::empty() },
        ipv4_dns: match ip4 { Some(x) => x.dns, None => Seq::empty() },
        ipv6_dns: match ip6 { Some(x) => x.dns, None => Seq::empty() },
        mac_address: match dev { Some(x) => text_or_empty(x.hw_address), None => Seq::empty() },
        connection_speed: match dev { Some(x) => speed_text(x.bitrate), None => Seq::empty() },
        is_connected: found is Some,
    }
}

/// The details of the network `ssid` (see [`details_view`]).
pub fn network_details(ssid: &str, found: &Option<ActiveDetails>) -> (d: NetworkDetails)
    ensures
        d@ == details_view(ssid@, match found { Some(f) => Some(f@), None => None }),
{
    let no_dns4: Vec<String> = Vec::new();
    let no_dns6: Vec<String> = Vec::new();
    assert(text_views(no_dns4@) =~= Seq::<Seq<char>>::empty());
    assert(text_views(no_dns6@) =~= Seq::<Seq<char>>::empty());
    let mut d = NetworkDetails {
        ssid: owned(ssid),
        ip4_address: String::new(),
        ip6_address: String::new(),
        gateway: String::new(),
        ipv4_dns: no_dns4,
        ipv6_dns: no_dns6,
        mac_address: String::new(),
        connection_speed: String::new(),
        is_connected: false,
    };
    match found {
        Some(f) => {
            d.is_connected = true;
            match &f.ip4 {
                Some(x) => {
                    d.ip4_address = last_string(&x.addresses);
                    d.gateway = string_or_empty(&x.gateway);
                    d.ipv4_dns = copy_strings(&x.dns);
                },
                None => {},
            }
            match &f.ip6 {
                Some(x) => {
                    d.ip6_address = last_string(&x.addresses);
                    d.ipv6_dns = copy_strings(&x.dns);
                },
                None => {},
            }
            match &f.device {
                Some(x) => {
                    d.mac_address = string_or_empty(&x.hw_address);
                    d.connection_speed = connection_speed_text(x.bitrate);
                },
                None => {},
            }
        },
        None => {},
    }
    d
}

} // verus!
