//! Rules of the Bluetooth list: the device record the list reads, its three
//! sections, and the icon, status, battery and buttons of each row.

use vstd::prelude::*;
use crate::scan::opt_text;
use crate::text::{str_eq, owned, push_str, push_decimal, decimal};

verus! {

/// The kind of a Bluetooth device, as far as the list tells them apart.
#[derive(Clone, Copy, Debug, PartialEq, Eq, Structural)]
pub enum DeviceType {
    Audio,
    Keyboard,
    Mouse,
    Phone,
    Other,
}

/// One Bluetooth device as the list shows it.
#[derive(Clone, Debug)]
pub struct BluetoothDevice {
    pub path: String,
    pub name: String,
    pub device_type: Option<DeviceType>,
    pub is_connected: bool,
    pub is_paired: bool,
    pub battery_percentage: Option<u8>,
    pub is_charging: bool,
}

/// The mathematical value of a [`BluetoothDevice`].
pub struct BluetoothDeviceView {
    pub path: Seq<char>,
    pub name: Seq<char>,
    pub device_type: Option<DeviceType>,
    pub is_connected: bool,
    pub is_paired: bool,
    pub battery_percentage: Option<u8>,
    pub is_charging: bool,
}

impl View for BluetoothDevice {
    type V = BluetoothDeviceView;

    open spec fn view(&self) -> BluetoothDeviceView {
        BluetoothDeviceView {
            path: self.path@,
            name: self.name@,
            device_type: self.device_type,
            is_connected: self.is_connected,
            is_paired: self.is_paired,
            battery_percentage: self.battery_percentage,
            is_charging: self.is_charging,
        }
    }
}

/// A copy of `d`.
pub fn copy_device(d: &BluetoothDevice) -> (r: BluetoothDevice)
    ensures
        r@ == d@,
{
    BluetoothDevice {
        path: d.path.clone(),
        name: d.name.clone(),
        device_type: d.device_type,
        is_connected: d.is_connected,
        is_paired: d.is_paired,
        battery_percentage: d.battery_percentage,
        is_charging: d.is_charging,
    }
}

/// The views of a list of devices.
pub open spec fn device_views(s: Seq<BluetoothDevice>) -> Seq<BluetoothDeviceView> {
    s.map_values(|d: BluetoothDevice| d@)
}

// ---------------------------------------------------------------------------
// Sections
// ---------------------------------------------------------------------------

/// The three sections of the list.
#[derive(Clone, Copy, Debug, PartialEq, Eq, Structural)]
pub enum DeviceSection {
    /// Devices that are connected.
    Connected,
    /// Paired devices that are not connected.
    Paired,
    /// Devices that are not paired.
    Available,
}

/// Whether `d` is listed in section `k`. A connected device that is not
/// paired is listed both as connected and as available.
pub open spec fn in_section(d: BluetoothDeviceView, k: DeviceSection) -> bool {
    match k {
        DeviceSection::Connected => d.is_connected,
        DeviceSection::Paired => d.is_paired && !d.is_connected,
        DeviceSection::Available => !d.is_paired,
    }
}

/// The devices of `s` listed in section `k`, in the order of `s`.
pub open spec fn device_section(s: Seq<BluetoothDeviceView>, k: DeviceSection) -> Seq<
    BluetoothDeviceView,
>
    decreases s.len(),
{
    if s.len() == 0 {
        Seq::empty()
    } else {
        let rest = device_section(s.drop_last(), k);
        if in_section(s.last(), k) {
            rest.push(s.last())
        } else {
            rest
        }
    }
}

/// The devices of `devices` listed in section `k`, in order (see
/// [`device_section`]).
pub fn devices_in_section(devices: &Vec<BluetoothDevice>, k: DeviceSection) -> (out: Vec<
    BluetoothDevice,
>)
    ensures
        device_views(out@) == device_section(device_views(devices@), k),
{
    let mut out: Vec<BluetoothDevice> = Vec::new();
    let mut i: usize = 0;
    while i < devices.len()
        invariant
            i <= devices.len(),
            device_views(out@) == device_section(device_views(devices@).take(i as int), k),
        decreases devices.len() - i,
    {
        let ghost before = out@;
        let d = &devices[i];
        assert(device_views(devices@).take(i + 1).drop_last() =~= device_views(devices@).take(
            i as int,
        ));
        let keep = match k {
            DeviceSection::Connected => d.is_connected,
            DeviceSection::Paired => d.is_paired && !d.is_connected,
            DeviceSection::Available => !d.is_paired,
        };
        if keep {
            out.push(copy_device(d));
            assert(device_views(out@) =~= device_views(before).push(d@));
        }
        i = i + 1;
    }
    assert(device_views(devices@).take(devices.len() as int) =~= device_views(devices@));
    out
}

/// Every device is listed in at least one section.
pub proof fn lemma_every_device_listed(d: BluetoothDeviceView)
    ensures
        in_section(d, DeviceSection::Connected) || in_section(d, DeviceSection::Paired)
            || in_section(d, DeviceSection::Available),
{
}

/// The name of the first device of `s` whose object path is `path`.
pub open spec fn name_at_path(s: Seq<BluetoothDeviceView>, path: Seq<char>) -> Option<Seq<char>>
    decreases s.len(),
{
    if s.len() == 0 {
        None
    } else if s[0].path == path {
        Some(s[0].name)
    } else {
        name_at_path(s.drop_first(), path)
    }
}

/// The name found for `path` is that of the first device with that path;
/// there is none when no device has it.
pub proof fn lemma_name_at_path_first(s: Seq<BluetoothDeviceView>, path: Seq<char>)
    ensures
        forall|k: int|
            0 <= k < s.len() && s[k].path == path && (forall|j: int| 0 <= j < k ==> s[j].path != path)
                ==> name_at_path(s, path) == Some(#[trigger] s[k].name),
        (forall|k: int| 0 <= k < s.len() ==> s[k].path != path) ==> name_at_path(s, path) is None,
    decreases s.len(),
{
    if s.len() > 0 {
        lemma_name_at_path_first(s.drop_first(), path);
        assert forall|k: int|
            0 <= k < s.len() && s[k].path == path && (forall|j: int| 0 <= j < k ==> s[j].path != path)
                implies name_at_path(s, path) == Some(#[trigger] s[k].name) by {
            if k > 0 {
                assert(s[0].path != path);
                assert(s.drop_first()[k - 1] == s[k]);
                assert forall|j: int| 0 <= j < k - 1 implies s.drop_first()[j].path != path by {
                    assert(s.drop_first()[j] == s[j + 1]);
                }
            }
        }
        if forall|k: int| 0 <= k < s.len() ==> s[k].path != path {
            assert(s[0].path != path);
            assert forall|k: int| 0 <= k < s.drop_first().len() implies s.drop_first()[k].path != path by {
                assert(s.drop_first()[k] == s[k + 1]);
            }
        }
    }
}

/// The name of the first device whose object path is `path`, if any.
pub fn get_device_name(devices: &Vec<BluetoothDevice>, path: &str) -> (r: Option<String>)
    ensures
        opt_text(r) == name_at_path(device_views(devices@), path@),
{
    let mut i: usize = 0;
    assert(device_views(devices@).skip(0) =~= device_views(devices@));
    while i < devices.len()
        invariant
            i <= devices.len(),
            name_at_path(device_views(devices@), path@) == name_at_path(
                device_views(devices@).skip(i as int),
                path@,
            ),
        decreases devices.len() - i,
    {
        assert(device_views(devices@).skip(i as int).drop_first() =~= device_views(
            devices@,
        ).skip(i + 1));
        if str_eq(devices[i].path.as_str(), path) {
            return Some(devices[i].name.clone());
        }
        i = i + 1;
    }
    None
}

// ---------------------------------------------------------------------------
// Rows
// ---------------------------------------------------------------------------

/// The icon of a device kind.
pub open spec fn icon_for(t: Option<DeviceType>) -> Seq<char> {
    match t {
        Some(DeviceType::Audio) => "audio-headphones-symbolic"@,
        Some(DeviceType::Keyboard) => "input-keyboard-symbolic"@,
        Some(DeviceType::Mouse) => "input-mouse-symbolic"@,
        Some(DeviceType::Phone) => "phone-symbolic"@,
        _ => "bluetooth-symbolic"@,
    }
}

/// The icon of a device kind (see [`icon_for`]).
pub fn device_icon_name(t: Option<DeviceType>) -> (s: String)
    ensures
        s@ == icon_for(t),
{
    match t {
        Some(DeviceType::Audio) => owned("audio-headphones-symbolic"),
        Some(DeviceType::Keyboard) => owned("input-keyboard-symbolic"),
        Some(DeviceType::Mouse) => owned("input-mouse-symbolic"),
        Some(DeviceType::Phone) => owned("phone-symbolic"),
        _ => owned("bluetooth-symbolic"),
    }
}

/// The status word of a device.
pub open spec fn status_of(d: BluetoothDeviceView) -> Seq<char> {
    if d.is_connected {
        "Connected"@
    } else if d.is_paired {
        "Paired"@
    } else {
        "Available"@
    }
}

/// The status word of a device (see [`status_of`]).
pub fn device_status_text(d: &BluetoothDevice) -> (s: String)
    ensures
        s@ == status_of(d@),
{
    if d.is_connected {
        owned("Connected")
    } else if d.is_paired {
        owned("Paired")
    } else {
        owned("Available")
    }
}

/// The battery icon of a device with `battery` percent left.
pub open spec fn battery_icon_for(battery: u8, charging: bool) -> Seq<char> {
    if charging {
        "battery-flash-symbolic"@
    } else if battery < 20 {
        "battery-caution-symbolic"@
    } else if battery < 40 {
        "battery-low-symbolic"@
    } else if battery < 70 {
        "battery-good-symbolic"@
    } else {
        "battery-full-symbolic"@
    }
}

/// The battery icon of a device (see [`battery_icon_for`]).
pub fn battery_icon_name(battery: u8, charging: bool) -> (s: String)
    ensures
        s@ == battery_icon_for(battery, charging),
{
    if charging {
        owned("battery-flash-symbolic")
    } else if battery < 20 {
        owned("battery-caution-symbolic")
    } else if battery < 40 {
        owned("battery-low-symbolic")
    } else if battery < 70 {
        owned("battery-good-symbolic")
    } else {
        owned("battery-full-symbolic")
    }
}

/// Whether a battery level is shown as low.
pub fn battery_is_low(battery: u8) -> (b: bool)
    ensures
        b == (battery < 20),
{
    battery < 20
}

/// The battery level text, such as `80%`.
pub fn battery_text(battery: u8) -> (s: String)
    ensures
        s@ == decimal(battery as nat) + "%"@,
{
    let mut s = String::new();
    push_decimal(&mut s, battery as u64);
    push_str(&mut s, "%");
    s
}

/// What can be asked of a device.
#[derive(Clone, Copy, Debug, PartialEq, Eq, Structural)]
pub enum DeviceAction {
    Connect,
    Disconnect,
    Pair,
    Forget,
}

/// The controls at the end of a device row.
#[derive(Clone, Copy, Debug, PartialEq, Eq, Structural)]
pub enum DeviceControls {
    /// A spinner while the action asked of this device runs.
    Busy(Option<DeviceAction>),
    /// The main button, its action, whether it is highlighted, and whether
    /// the details button is shown.
    Ready { action: DeviceAction, primary: bool, details: bool },
}

/// The controls of the row for `d`, given the device an action runs on and
/// that action.
pub open spec fn controls_of(
    d: BluetoothDeviceView,
    action_path: Option<Seq<char>>,
    action: Option<DeviceAction>,
) -> DeviceControls {
    if action_path == Some(d.path) {
        DeviceControls::Busy(action)
    } else {
        DeviceControls::Ready {
            action: if d.is_connected {
                DeviceAction::Disconnect
            } else if d.is_paired {
                DeviceAction::Connect
            } else {
                DeviceAction::Pair
            },
            primary: d.is_connected || d.is_paired,
            details: d.is_paired,
        }
    }
}

/// The controls of the row for `d` (see [`controls_of`]).
pub fn device_row_controls(
    d: &BluetoothDevice,
    action_path: &Option<String>,
    action: Option<DeviceAction>,
) -> (c: DeviceControls)
    ensures
        c == controls_of(d@, opt_text(*action_path), action),
{
    let busy = match action_path {
        Some(p) => str_eq(p.as_str(), d.path.as_str()),
        None => false,
    };
    if busy {
        DeviceControls::Busy(action)
    } else {
        let act = if d.is_connected {
            DeviceAction::Disconnect
        } else if d.is_paired {
            DeviceAction::Connect
        } else {
            DeviceAction::Pair
        };
        DeviceControls::Ready {
            action: act,
            primary: d.is_connected || d.is_paired,
            details: d.is_paired,
        }
    }
}

/// The spinner text while an action runs.
pub open spec fn busy_label(a: Option<DeviceAction>) -> Seq<char> {
    match a {
        Some(DeviceAction::Connect) => "Connecting..."@,
        Some(DeviceAction::Disconnect) => "Disconnecting..."@,
        Some(DeviceAction::Pair) => "Pairing..."@,
        Some(DeviceAction::Forget) => "Removing..."@,
        None => "Working..."@,
    }
}

/// The spinner text while an action runs (see [`busy_label`]).
pub fn busy_text(a: Option<DeviceAction>) -> (s: String)
    ensures
        s@ == busy_label(a),
{
    match a {
        Some(DeviceAction::Connect) => owned("Connecting..."),
        Some(DeviceAction::Disconnect) => owned("Disconnecting..."),
        Some(DeviceAction::Pair) => owned("Pairing..."),
        Some(DeviceAction::Forget) => owned("Removing..."),
        None => owned("Working..."),
    }
}

/// The label of a device's main button; forgetting a device is offered
/// elsewhere, never by the main button.
pub open spec fn action_label(a: DeviceAction) -> Seq<char>
    recommends
        a != DeviceAction::Forget,
{
    match a {
        DeviceAction::Connect => "Connect"@,
        DeviceAction::Disconnect => "Disconnect"@,
        _ => "Pair"@,
    }
}

/// The label of a device's main button (see [`action_label`]).
pub fn action_button_label(a: DeviceAction) -> (s: String)
    requires
        a != DeviceAction::Forget,
    ensures
        s@ == action_label(a),
{
    match a {
        DeviceAction::Connect => owned("Connect"),
        DeviceAction::Disconnect => owned("Disconnect"),
        _ => owned("Pair"),
    }
}

/// The main button of a row never offers to forget the device.
pub proof fn lemma_main_button_never_forgets(
    d: BluetoothDeviceView,
    action_path: Option<Seq<char>>,
    action: Option<DeviceAction>,
)
    ensures
        controls_of(d, action_path, action) matches DeviceControls::Ready { action: a, .. } ==> a
            != DeviceAction::Forget,
{
}

// ---------------------------------------------------------------------------
// Device details
// ---------------------------------------------------------------------------

/// What the details view shows of a device.
#[derive(Clone, Debug)]
pub struct BluetoothDeviceDetails {
    pub path: String,
    pub name: String,
    pub address: String,
    pub is_connected: bool,
    pub is_paired: bool,
    pub is_trusted: bool,
    pub battery_percentage: Option<u8>,
    /// Received signal strength, in dBm.
    pub rssi: i16,
}

/// An integer in decimal, with a minus sign when negative.
pub open spec fn signed_decimal(x: int) -> Seq<char> {
    if x < 0 {
        "-"@ + decimal((-x) as nat)
    } else {
        decimal(x as nat)
    }
}

/// The rows of the device details view, as (label, value, icon).
pub open spec fn device_detail_rows(d: BluetoothDeviceDetails) -> Seq<(Seq<char>, Seq<char>, Seq<char>)> {
    seq![
        ("Name"@, d.name@, "preferences-system-symbolic"@),
        ("Address"@, d.address@, "dialog-password-symbolic"@),
        (
            "Status"@,
            if d.is_connected {
                "Connected"@
            } else if d.is_paired {
                "Paired"@
            } else {
                "Available"@
            },
            "network-wireless-symbolic"@,
        ),
        (
            "Battery"@,
            match d.battery_percentage {
                Some(p) => decimal(p as nat) + "%"@,
                None => "N/A"@,
            },
            "battery-good-symbolic"@,
        ),
        ("Signal (RSSI)"@, signed_decimal(d.rssi as int) + " dBm"@, "network-transmit-receive-symbolic"@),
        (
            "Trusted"@,
            if d.is_trusted {
                "Yes"@
            } else {
                "No"@
            },
            "security-high-symbolic"@,
        ),
    ]
}

fn row_of(label: &str, value: String, icon: &str) -> (r: (String, String, String))
    ensures
        (r.0@, r.1@, r.2@) == (label@, value@, icon@),
{
    (owned(label), value, owned(icon))
}

/// The rows of the device details view (see [`device_detail_rows`]).
pub fn device_details_rows(d: &BluetoothDeviceDetails) -> (rows: Vec<(String, String, String)>)
    ensures
        rows@.map_values(|r: (String, String, String)| (r.0@, r.1@, r.2@)) == device_detail_rows(*d),
{
    let status = if d.is_connected {
        owned("Connected")
    } else if d.is_paired {
        owned("Paired")
    } else {
        owned("Available")
    };
    let battery = match d.battery_percentage {
        Some(p) => battery_text(p),
        None => owned("N/A"),
    };
    let mut rssi = String::new();
    if d.rssi < 0 {
        push_str(&mut rssi, "-");
        let magnitude: u64 = (0 - (d.rssi as i32)) as u64;
        push_decimal(&mut rssi, magnitude);
    } else {
        push_decimal(&mut rssi, d.rssi as u64);
    }
    push_str(&mut rssi, " dBm");
    let trusted = if d.is_trusted {
        owned("Yes")
    } else {
        owned("No")
    };
    let mut rows: Vec<(String, String, String)> = Vec::new();
    rows.push(row_of("Name", d.name.clone(), "preferences-system-symbolic"));
    rows.push(row_of("Address", d.address.clone(), "dialog-password-symbolic"));
    rows.push(row_of("Status", status, "network-wireless-symbolic"));
    rows.push(row_of("Battery", battery, "battery-good-symbolic"));
    rows.push(row_of("Signal (RSSI)", rssi, "network-transmit-receive-symbolic"));
    rows.push(row_of("Trusted", trusted, "security-high-symbolic"));
    assert(rows@.map_values(|r: (String, String, String)| (r.0@, r.1@, r.2@)) =~= device_detail_rows(*d));
    rows
}

/// The trust button of the details view: its label, and the trust it asks
/// for (the opposite of the current one).
pub fn trust_button(d: &BluetoothDeviceDetails) -> (r: (String, bool))
    ensures
        r.0@ == (if d.is_trusted {
            "Untrust Device"@
        } else {
            "Trust Device"@
        }),
        r.1 == !d.is_trusted,
{
    if d.is_trusted {
        (owned("Untrust Device"), false)
    } else {
        (owned("Trust Device"), true)
    }
}

/// Whether the details view offers to forget the device: only a paired one.
pub fn offers_forget(d: &BluetoothDeviceDetails) -> (b: bool)
    ensures
        b == d.is_paired,
{
    d.is_paired
}

} // verus!
