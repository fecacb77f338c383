//! Decisions inside the requests to the network service: which devices are
//! wireless or wired, whether a text is a valid object path, how a network is
//! joined (an existing profile or a new one), how long the join is waited
//! for, and which active connection is closed to leave a network.

use vstd::prelude::*;
use crate::network::ConnectionSettings;
use crate::connection::{SettingGroup, find_saved_connection, wifi_profile_for, profile_matches};
use crate::text::str_eq;

verus! {

// ---------------------------------------------------------------------------
// Object paths
// ---------------------------------------------------------------------------

/// A character allowed inside an element of an object path: an ASCII letter
/// or digit, or `_`.
pub open spec fn path_char(c: char) -> bool {
    ('a' <= c && c <= 'z') || ('A' <= c && c <= 'Z') || ('0' <= c && c <= '9') || c == '_'
}

/// A D-Bus object path: `/` alone, or `/` followed by non-empty elements of
/// path characters separated by single `/`, with no `/` at the end.
pub open spec fn valid_object_path(s: Seq<char>) -> bool {
    &&& s.len() >= 1
    &&& s[0] == '/'
    &&& forall|i: int| 0 <= i < s.len() ==> path_char(#[trigger] s[i]) || s[i] == '/'
    &&& forall|i: int| 0 <= i < s.len() - 1 ==> !(#[trigger] s[i] == '/' && s[i + 1] == '/')
    &&& (s.len() == 1 || s[s.len() - 1] != '/')
}

fn is_path_char(c: char) -> (b: bool)
    ensures
        b == path_char(c),
{
    ('a' <= c && c <= 'z') || ('A' <= c && c <= 'Z') || ('0' <= c && c <= '9') || c == '_'
}

/// Whether `s` is a D-Bus object path (see [`valid_object_path`]), the check
/// that `zbus::zvariant::ObjectPath::try_from` makes.
pub fn is_object_path(s: &str) -> (b: bool)
    ensures
        b == valid_object_path(s@),
{
    let v = crate::text::chars_of(s);
    let n = v.len();
    if n == 0 || v[0] != '/' {
        return false;
    }
    let mut i: usize = 0;
    while i < n
        invariant
            n == v.len(),
            v@ == s@,
            i <= n,
            forall|j: int| 0 <= j < i ==> path_char(#[trigger] v@[j]) || v@[j] == '/',
            forall|j: int| 0 <= j < i && j < n - 1 ==> !(#[trigger] v@[j] == '/' && v@[j + 1] == '/'),
        decreases n - i,
    {
        let c = v[i];
        if !(is_path_char(c) || c == '/') {
            return false;
        }
        if c == '/' && i + 1 < n && v[i + 1] == '/' {
            assert(!(s@[i as int] == '/' && s@[i + 1] == '/') == false);
            return false;
        }
        i = i + 1;
    }
    n == 1 || v[n - 1] != '/'
}

// ---------------------------------------------------------------------------
// Devices
// ---------------------------------------------------------------------------

/// A network device and its `DeviceType` code (0 when it could not be read
/// as a number).
pub struct DeviceEntry {
    pub path: String,
    pub device_type: u32,
}

/// The device type code of Ethernet devices.
pub open spec fn ethernet_type() -> u32 {
    1
}

/// The device type code of Wi-Fi devices.
pub open spec fn wifi_type() -> u32 {
    2
}

/// The paths of the devices of `s` whose type is `t`, in order.
pub open spec fn paths_of_type(s: Seq<DeviceEntry>, t: u32) -> Seq<Seq<char>>
    decreases s.len(),
{
    if s.len() == 0 {
        Seq::empty()
    } else {
        let rest = paths_of_type(s.drop_last(), t);
        if s.last().device_type == t {
            rest.push(s.last().path@)
        } else {
            rest
        }
    }
}

/// The paths of the devices of type `t`, in order (see [`paths_of_type`]).
pub fn devices_of_type(devices: &Vec<DeviceEntry>, t: u32) -> (v: Vec<String>)
    ensures
        crate::network::text_views(v@) == paths_of_type(devices@, t),
{
    let mut v: Vec<String> = Vec::new();
    let mut i: usize = 0;
    while i < devices.len()
        invariant
            i <= devices.len(),
            crate::network::text_views(v@) == paths_of_type(devices@.take(i as int), t),
        decreases devices.len() - i,
    {
        let ghost before = crate::network::text_views(v@);
        assert(devices@.take(i + 1).drop_last() =~= devices@.take(i as int));
        if devices[i].device_type == t {
            v.push(devices[i].path.clone());
            assert(crate::network::text_views(v@) =~= before.push(devices@[i as int].path@));
        }
        i = i + 1;
    }
    assert(devices@.take(devices.len() as int) =~= devices@);
    v
}

/// The Wi-Fi devices among `devices`, in order.
pub fn wireless_devices(devices: &Vec<DeviceEntry>) -> (v: Vec<String>)
    ensures
        crate::network::text_views(v@) == paths_of_type(devices@, wifi_type()),
{
    devices_of_type(devices, 2)
}

/// The Ethernet devices among `devices`, in order.
pub fn wired_devices(devices: &Vec<DeviceEntry>) -> (v: Vec<String>)
    ensures
        crate::network::text_views(v@) == paths_of_type(devices@, ethernet_type()),
{
    devices_of_type(devices, 1)
}

// ---------------------------------------------------------------------------
// Joining a network
// ---------------------------------------------------------------------------

/// How a network is joined.
pub enum JoinRequest {
    /// Activate the stored profile at this path.
    Activate(String),
    /// Add this new profile and activate it.
    AddAndActivate(Vec<SettingGroup>),
}

/// Why a join cannot be asked for.
#[derive(Clone, Copy, Debug, PartialEq, Eq, Structural)]
pub enum JoinError {
    /// The device path is not an object path.
    InvalidDevicePath,
}

/// How `ssid` is joined on the device at `device_path`: refused when the path
/// is not an object path; otherwise through the first stored profile for the
/// network, or else a new profile with the password, if any.
pub fn join_request(
    device_path: &str,
    conns: &Vec<ConnectionSettings>,
    ssid: &str,
    password: Option<&str>,
) -> (r: Result<JoinRequest, JoinError>)
    ensures
        !valid_object_path(device_path@) <==> r == Err::<JoinRequest, JoinError>(
            JoinError::InvalidDevicePath,
        ),
        r matches Ok(JoinRequest::Activate(p)) ==> exists|k: int|
            0 <= k < conns.len() && profile_matches(conns@[k]@, ssid@) && p@ == conns@[k].path@
                && forall|j: int| 0 <= j < k ==> !profile_matches(#[trigger] conns@[j]@, ssid@),
        r matches Ok(JoinRequest::AddAndActivate(g)) ==> (forall|k: int|
            0 <= k < conns.len() ==> !profile_matches(#[trigger] conns@[k]@, ssid@)) && exists|
            uuid: Seq<char>,
        |
            crate::connection::is_v4_uuid_text(uuid) && crate::connection::group_views(g@)
                == crate::connection::wifi_profile(
                ssid@,
                match password {
                    Some(p) => Some(p@),
                    None => None,
                },
                false,
                uuid,
            ),
{
    if !is_object_path(device_path) {
        return Err(JoinError::InvalidDevicePath);
    }
    match find_saved_connection(conns, ssid) {
        Some(p) => Ok(JoinRequest::Activate(p)),
        None => Ok(JoinRequest::AddAndActivate(wifi_profile_for(ssid, password, false))),
    }
}

/// One check of the wait for a join.
#[derive(Clone, Copy, Debug, PartialEq, Eq, Structural)]
pub enum JoinWait {
    /// The network is now the active one.
    Joined,
    /// Check again in half a second.
    Wait,
    /// Thirty checks went by: the join timed out.
    TimedOut,
}

/// Check `retries` (counted from 0) of the wait for joining `ssid`, given the
/// active network read after half a second: joined when it is `ssid`; the
/// thirtieth check that fails ends the wait.
pub fn join_wait_step(retries: u32, active: &Option<String>, ssid: &str) -> (w: JoinWait)
    requires
        retries < 30,
    ensures
        crate::scan::opt_text(*active) == Some(ssid@) ==> w == JoinWait::Joined,
        crate::scan::opt_text(*active) != Some(ssid@) && retries + 1 < 30 ==> w == JoinWait::Wait,
        crate::scan::opt_text(*active) != Some(ssid@) && retries + 1 == 30 ==> w
            == JoinWait::TimedOut,
{
    let joined = match active {
        Some(a) => str_eq(a.as_str(), ssid),
        None => false,
    };
    if joined {
        JoinWait::Joined
    } else if retries + 1 < 30 {
        JoinWait::Wait
    } else {
        JoinWait::TimedOut
    }
}

// ---------------------------------------------------------------------------
// Leaving a network
// ---------------------------------------------------------------------------

/// An active connection: its object path and its id (`None` when it could
/// not be read).
pub struct ActiveEntry {
    pub path: String,
    pub id: Option<String>,
}

/// The id of an active connection as compared: empty when unread.
pub open spec fn id_text(e: ActiveEntry) -> Seq<char> {
    match e.id {
        Some(t) => t@,
        None => Seq::empty(),
    }
}

/// The active connection closed to leave `ssid`: the first whose path is an
/// object path and whose id is `ssid`.
pub open spec fn leave_target(s: Seq<ActiveEntry>, ssid: Seq<char>) -> Option<Seq<char>>
    decreases s.len(),
{
    if s.len() == 0 {
        None
    } else if valid_object_path(s[0].path@) && id_text(s[0]) == ssid {
        Some(s[0].path@)
    } else {
        leave_target(s.drop_first(), ssid)
    }
}

/// The active connection of `ssid` (see [`leave_target`]): the one closed to
/// leave the network and the one whose details are read; `None` means there
/// is none.
pub fn active_connection_for(active: &Vec<ActiveEntry>, ssid: &str) -> (r: Option<String>)
    ensures
        crate::scan::opt_text(r) == leave_target(active@, ssid@),
{
    let mut i: usize = 0;
    assert(active@.skip(0) =~= active@);
    while i < active.len()
        invariant
            i <= active.len(),
            leave_target(active@, ssid@) == leave_target(active@.skip(i as int), ssid@),
        decreases active.len() - i,
    {
        assert(active@.skip(i as int).drop_first() =~= active@.skip(i + 1));
        let e = &active[i];
        if is_object_path(e.path.as_str()) {
            let same = match &e.id {
                Some(t) => str_eq(t.as_str(), ssid),
                None => ssid.unicode_len() == 0,
            };
            if same {
                proof {
                    if e.id is None {
                        assert(ssid@ =~= Seq::<char>::empty());
                    }
                }
                return Some(e.path.clone());
            }
        }
        i = i + 1;
    }
    assert(active@.skip(i as int) =~= Seq::<ActiveEntry>::empty());
    None
}

// ---------------------------------------------------------------------------
// Switching a managed VPN off
// ---------------------------------------------------------------------------

/// An active connection and the saved profile it runs (`None` when that
/// could not be read).
pub struct ActiveLink {
    pub path: String,
    pub connection: Option<String>,
}

/// What switching off the VPN profile `profile` acts on, going through the
/// active connections in order: an active path that is not an object path
/// stops it with an error (`Err`); the first one running `profile` is
/// deactivated (`Ok(Some(path))`); none running it means nothing to do
/// (`Ok(None)`).
pub open spec fn vpn_off_target(s: Seq<ActiveLink>, profile: Seq<char>) -> Result<Option<Seq<char>>, ()>
    decreases s.len(),
{
    if s.len() == 0 {
        Ok(None)
    } else if !valid_object_path(s[0].path@) {
        Err(())
    } else if crate::scan::opt_text(s[0].connection) == Some(profile) {
        Ok(Some(s[0].path@))
    } else {
        vpn_off_target(s.drop_first(), profile)
    }
}

/// The active connection to deactivate to switch the VPN profile `profile`
/// off (see [`vpn_off_target`]).
pub fn vpn_off_connection(active: &Vec<ActiveLink>, profile: &str) -> (r: Result<Option<String>, ()>)
    ensures
        match r {
            Ok(o) => vpn_off_target(active@, profile@) == Ok::<Option<Seq<char>>, ()>(crate::scan::opt_text(o)),
            Err(_) => vpn_off_target(active@, profile@) is Err,
        },
{
    let mut i: usize = 0;
    assert(active@.skip(0) =~= active@);
    while i < active.len()
        invariant
            i <= active.len(),
            vpn_off_target(active@, profile@) == vpn_off_target(active@.skip(i as int), profile@),
        decreases active.len() - i,
    {
        assert(active@.skip(i as int).drop_first() =~= active@.skip(i + 1));
        let e = &active[i];
        if !is_object_path(e.path.as_str()) {
            return Err(());
        }
        let runs = match &e.connection {
            Some(c) => str_eq(c.as_str(), profile),
            None => false,
        };
        if runs {
            return Ok(Some(e.path.clone()));
        }
        i = i + 1;
    }
    assert(active@.skip(i as int) =~= Seq::<ActiveLink>::empty());
    Ok(None)
}

} // verus!
