//! What the panel does when the user acts: joining or leaving a network,
//! switching a radio, refreshing the page in view, and the events it reports
//! once the network or Bluetooth service has answered.

use vstd::prelude::*;
use crate::scan::{AccessPoint, SecurityType};
use crate::network::text_views;
use crate::wired::NetworkDetails;
use crate::events::PanelEvent;
use crate::layout::{PanelTab, tab_of, tab_for};
use crate::text::{owned, push_str, str_eq};

verus! {

// ---------------------------------------------------------------------------
// Joining and leaving a network
// ---------------------------------------------------------------------------

/// What a click on a network's main button leads to.
pub enum ConnectPlan {
    /// Leave the connected network (name, access point path).
    Disconnect(String, String),
    /// Join at once, with no password (name, device path): the network is
    /// open or has a stored profile.
    Join(String, String),
    /// Ask for a password first (name, device path).
    AskPassword(String, String),
}

/// What a click on the main button of `a` leads to, given whether a stored
/// profile exists for it.
pub fn connect_plan(a: &AccessPoint, has_saved: bool) -> (p: ConnectPlan)
    ensures
        match p {
            ConnectPlan::Disconnect(ssid, path) => a.is_connected && ssid@ == a.ssid@ && path@
                == a.path@,
            ConnectPlan::Join(ssid, dev) => !a.is_connected && (a.security == SecurityType::Open
                || has_saved) && ssid@ == a.ssid@ && dev@ == a.device_path@,
            ConnectPlan::AskPassword(ssid, dev) => !a.is_connected && a.security
                != SecurityType::Open && !has_saved && ssid@ == a.ssid@ && dev@ == a.device_path@,
        },
{
    if a.is_connected {
        ConnectPlan::Disconnect(a.ssid.clone(), a.path.clone())
    } else if a.security == SecurityType::Open || has_saved {
        ConnectPlan::Join(a.ssid.clone(), a.device_path.clone())
    } else {
        ConnectPlan::AskPassword(a.ssid.clone(), a.device_path.clone())
    }
}

/// `prefix` followed by `detail`.
fn text_event(prefix: &str, detail: &str) -> (s: String)
    ensures
        s@ == prefix@ + detail@,
{
    let mut s = owned(prefix);
    push_str(&mut s, detail);
    s
}

/// Whether `e` is the error event with text `t`.
pub open spec fn is_error(e: PanelEvent, t: Seq<char>) -> bool {
    e matches PanelEvent::Error(m) && m@ == t
}

/// Whether `e` is the notification with text `t`.
pub open spec fn is_notice(e: PanelEvent, t: Seq<char>) -> bool {
    e matches PanelEvent::Notify(m) && m@ == t
}

/// The events once joining `ssid` has been answered: on success the attempt
/// is over and a notice says so; on failure, the error.
pub fn join_outcome(ssid: &str, result: &Result<(), String>) -> (ev: Vec<PanelEvent>)
    ensures
        match result {
            Ok(_) => ev.len() == 2 && ev@[0] is ConnectSuccess && is_notice(
                ev@[1],
                "Connected to "@ + ssid@,
            ),
            Err(e) => ev.len() == 1 && is_error(ev@[0], "Connect failed: "@ + e@),
        },
{
    let mut ev: Vec<PanelEvent> = Vec::new();
    match result {
        Ok(_) => {
            ev.push(PanelEvent::ConnectSuccess);
            ev.push(PanelEvent::Notify(text_event("Connected to ", ssid)));
        },
        Err(e) => {
            ev.push(PanelEvent::Error(text_event("Connect failed: ", e.as_str())));
        },
    }
    ev
}

/// One step the panel takes for a click on a network's main button, in the
/// order the steps come.
pub enum ClickStep {
    /// Report this event to the event loop.
    Report(PanelEvent),
    /// Leave the network (name, access point path).
    Leave(String, String),
    /// Join the network (name, password if any, device path).
    Join(String, Option<String>, String),
    /// Ask for the network's password (name, device path); what follows is
    /// [`password_steps`].
    AskPassword(String, String),
    /// Wait this many milliseconds.
    Pause(u64),
    /// Read the access points again and report them as `WifiScanResult`.
    Rescan,
}

/// The steps for a click on the main button of `a`, given whether a stored
/// profile exists for it: a connected network is reported as being left and
/// then left; an open or stored one is reported as being joined before it is
/// joined with no password; any other asks for its password first.
pub fn click_steps(a: &AccessPoint, has_saved: bool) -> (steps: Vec<ClickStep>)
    ensures
        a.is_connected ==> steps.len() == 2 && (steps@[0] matches ClickStep::Report(
            PanelEvent::DisconnectStarted(n),
        ) && n@ == a.ssid@) && (steps@[1] matches ClickStep::Leave(n, p) && n@ == a.ssid@ && p@
            == a.path@),
        !a.is_connected && (a.security == SecurityType::Open || has_saved) ==> steps.len() == 2 && (
        steps@[0] matches ClickStep::Report(PanelEvent::ConnectStarted(n)) && n@ == a.ssid@) && (
        steps@[1] matches ClickStep::Join(n, None, d) && n@ == a.ssid@ && d@ == a.device_path@),
        !a.is_connected && a.security != SecurityType::Open && !has_saved ==> steps.len() == 1 && (
        steps@[0] matches ClickStep::AskPassword(n, d) && n@ == a.ssid@ && d@ == a.device_path@),
{
    let mut steps: Vec<ClickStep> = Vec::new();
    if a.is_connected {
        steps.push(ClickStep::Report(PanelEvent::DisconnectStarted(a.ssid.clone())));
        steps.push(ClickStep::Leave(a.ssid.clone(), a.path.clone()));
    } else if a.security == SecurityType::Open || has_saved {
        steps.push(ClickStep::Report(PanelEvent::ConnectStarted(a.ssid.clone())));
        steps.push(ClickStep::Join(a.ssid.clone(), None, a.device_path.clone()));
    } else {
        steps.push(ClickStep::AskPassword(a.ssid.clone(), a.device_path.clone()));
    }
    steps
}

/// The steps once the password dialog for `ssid` closes: with a password,
/// the join is reported and then made with it; cancelled, nothing.
pub fn password_steps(ssid: &str, password: Option<String>, device_path: &str) -> (steps: Vec<
    ClickStep,
>)
    ensures
        password is None ==> steps.len() == 0,
        password matches Some(pw) ==> steps.len() == 2 && (steps@[0] matches ClickStep::Report(
            PanelEvent::ConnectStarted(n),
        ) && n@ == ssid@) && (steps@[1] matches ClickStep::Join(n, Some(q), d) && n@ == ssid@
            && q@ == pw@ && d@ == device_path@),
{
    let mut steps: Vec<ClickStep> = Vec::new();
    match password {
        Some(pw) => {
            steps.push(ClickStep::Report(PanelEvent::ConnectStarted(owned(ssid))));
            steps.push(ClickStep::Join(owned(ssid), Some(pw), owned(device_path)));
        },
        None => {},
    }
    steps
}

/// The steps once joining `ssid` has been answered: on success, a second's
/// pause, the end of the attempt, a notice, and the list read again; on
/// failure, the error.
pub fn join_steps(ssid: &str, result: &Result<(), String>) -> (steps: Vec<ClickStep>)
    ensures
        match result {
            Ok(_) => steps.len() == 4 && steps@[0] == ClickStep::Pause(1000) && (steps@[1] matches ClickStep::Report(e)
                && e is ConnectSuccess) && (steps@[2] matches ClickStep::Report(e) && is_notice(
                e,
                "Connected to "@ + ssid@,
            )) && steps@[3] is Rescan,
            Err(m) => steps.len() == 1 && (steps@[0] matches ClickStep::Report(e) && is_error(
                e,
                "Connect failed: "@ + m@,
            )),
        },
{
    let mut steps: Vec<ClickStep> = Vec::new();
    match result {
        Ok(_) => {
            steps.push(ClickStep::Pause(1000));
            steps.push(ClickStep::Report(PanelEvent::ConnectSuccess));
            steps.push(ClickStep::Report(PanelEvent::Notify(text_event("Connected to ", ssid))));
            steps.push(ClickStep::Rescan);
        },
        Err(m) => {
            steps.push(ClickStep::Report(PanelEvent::Error(text_event("Connect failed: ", m.as_str()))));
        },
    }
    steps
}

/// The steps once leaving a network has been answered, whatever the answer:
/// a second's pause, the end of the attempt, half a second's pause, and the
/// list read again.
pub fn leave_steps() -> (steps: Vec<ClickStep>)
    ensures
        steps.len() == 4,
        steps@[0] == ClickStep::Pause(1000),
        steps@[1] matches ClickStep::Report(e) && e is ConnectSuccess,
        steps@[2] == ClickStep::Pause(500),
        steps@[3] is Rescan,
{
    let mut steps: Vec<ClickStep> = Vec::new();
    steps.push(ClickStep::Pause(1000));
    steps.push(ClickStep::Report(PanelEvent::ConnectSuccess));
    steps.push(ClickStep::Pause(500));
    steps.push(ClickStep::Rescan);
    steps
}

/// The device a hidden network is joined on: the first wireless device; an
/// error event when there is none or the devices could not be listed.
pub fn hidden_join_device(devices: &Result<Vec<String>, String>) -> (r: Result<String, PanelEvent>)
    ensures
        match devices {
            Ok(v) => if v.len() > 0 {
                r matches Ok(d) && d@ == v@[0]@
            } else {
                r matches Err(e) && is_error(e, "No WiFi device found"@)
            },
            Err(m) => r matches Err(e) && is_error(e, "Failed to query WiFi devices: "@ + m@),
        },
{
    match devices {
        Ok(v) => {
            if v.len() > 0 {
                Ok(v[0].clone())
            } else {
                Err(PanelEvent::Error(owned("No WiFi device found")))
            }
        },
        Err(m) => Err(PanelEvent::Error(text_event("Failed to query WiFi devices: ", m.as_str()))),
    }
}

/// The events once joining the hidden network `ssid` has been answered.
pub fn hidden_join_outcome(ssid: &str, result: &Result<(), String>) -> (ev: Vec<PanelEvent>)
    ensures
        match result {
            Ok(_) => ev.len() == 2 && ev@[0] is ConnectSuccess && is_notice(
                ev@[1],
                "Connecting to hidden network "@ + ssid@ + "..."@,
            ),
            Err(e) => ev.len() == 1 && is_error(ev@[0], "Hidden connect failed: "@ + e@),
        },
{
    let mut ev: Vec<PanelEvent> = Vec::new();
    match result {
        Ok(_) => {
            ev.push(PanelEvent::ConnectSuccess);
            let mut t = owned("Connecting to hidden network ");
            push_str(&mut t, ssid);
            push_str(&mut t, "...");
            ev.push(PanelEvent::Notify(t));
        },
        Err(e) => {
            ev.push(PanelEvent::Error(text_event("Hidden connect failed: ", e.as_str())));
        },
    }
    ev
}

// ---------------------------------------------------------------------------
// Radios
// ---------------------------------------------------------------------------

/// The radio a power switch acts on.
#[derive(Clone, Copy, Debug, PartialEq, Eq, Structural)]
pub enum Radio {
    Wifi,
    Bluetooth,
}

/// The radio the power switch acts on while page `page` is shown: Wi-Fi on
/// the Wi-Fi pages, Bluetooth on the Bluetooth page, none elsewhere.
pub open spec fn radio_for(page: Seq<char>) -> Option<Radio> {
    match tab_for(page) {
        Some(PanelTab::Wifi) => Some(Radio::Wifi),
        Some(PanelTab::Bluetooth) => Some(Radio::Bluetooth),
        _ => None,
    }
}

/// The radio the power switch acts on (see [`radio_for`]).
pub fn power_target(page: &str) -> (r: Option<Radio>)
    ensures
        r == radio_for(page@),
{
    match tab_of(page) {
        Some(PanelTab::Wifi) => Some(Radio::Wifi),
        Some(PanelTab::Bluetooth) => Some(Radio::Bluetooth),
        _ => None,
    }
}

/// The events once switching Bluetooth to `on` has been answered: the new
/// state on success; on failure the error and then the state actually read,
/// if it could be read.
pub fn bluetooth_power_outcome(on: bool, result: &Result<(), String>, actual: Option<bool>) -> (ev:
    Vec<PanelEvent>)
    ensures
        match result {
            Ok(_) => ev.len() == 1 && ev@[0] == PanelEvent::BtPowerState(on),
            Err(e) => is_error(ev@[0], "Failed to toggle Bluetooth: "@ + e@) && match actual {
                Some(b) => ev.len() == 2 && ev@[1] == PanelEvent::BtPowerState(b),
                None => ev.len() == 1,
            },
        },
{
    let mut ev: Vec<PanelEvent> = Vec::new();
    match result {
        Ok(_) => {
            ev.push(PanelEvent::BtPowerState(on));
        },
        Err(e) => {
            ev.push(PanelEvent::Error(text_event("Failed to toggle Bluetooth: ", e.as_str())));
            if let Some(b) = actual {
                ev.push(PanelEvent::BtPowerState(b));
            }
        },
    }
    ev
}

/// A power state read after a tab was opened is reported only when the
/// switch is not being changed.
pub fn power_report(radio: Radio, on: bool, switching: bool) -> (r: Option<PanelEvent>)
    ensures
        switching ==> r is None,
        !switching ==> r == Some(
            match radio {
                Radio::Wifi => PanelEvent::WifiPowerState(on),
                Radio::Bluetooth => PanelEvent::BtPowerState(on),
            },
        ),
{
    if switching {
        None
    } else {
        match radio {
            Radio::Wifi => Some(PanelEvent::WifiPowerState(on)),
            Radio::Bluetooth => Some(PanelEvent::BtPowerState(on)),
        }
    }
}

// ---------------------------------------------------------------------------
// Periodic refresh
// ---------------------------------------------------------------------------

/// What the periodic refresh reads again.
#[derive(Clone, Copy, Debug, PartialEq, Eq, Structural)]
pub enum RefreshTarget {
    AccessPoints,
    Devices,
    SavedNetworks,
}

/// What the periodic refresh reads: nothing while the window is hidden or
/// while the page shown is not the tab last chosen; otherwise what that page
/// lists.
pub open spec fn refresh_target_for(visible: bool, tab: Seq<char>, shown: Option<Seq<char>>) -> Option<
    RefreshTarget,
> {
    if !visible || shown != Some(tab) {
        None
    } else if tab == "wifi"@ {
        Some(RefreshTarget::AccessPoints)
    } else if tab == "bluetooth"@ {
        Some(RefreshTarget::Devices)
    } else if tab == "saved"@ {
        Some(RefreshTarget::SavedNetworks)
    } else {
        None
    }
}

/// What the periodic refresh reads (see [`refresh_target_for`]).
pub fn periodic_refresh_target(visible: bool, tab: &str, shown: &Option<String>) -> (r: Option<
    RefreshTarget,
>)
    ensures
        r == refresh_target_for(visible, tab@, crate::scan::opt_text(*shown)),
{
    if !visible {
        return None;
    }
    let same = match shown {
        Some(p) => str_eq(p.as_str(), tab),
        None => false,
    };
    if !same {
        return None;
    }
    if str_eq(tab, "wifi") {
        Some(RefreshTarget::AccessPoints)
    } else if str_eq(tab, "bluetooth") {
        Some(RefreshTarget::Devices)
    } else if str_eq(tab, "saved") {
        Some(RefreshTarget::SavedNetworks)
    } else {
        None
    }
}

// ---------------------------------------------------------------------------
// Answers of the services
// ---------------------------------------------------------------------------

/// The requests whose failure is reported with a fixed opening.
#[derive(Clone, Copy, Debug, PartialEq, Eq, Structural)]
pub enum Failure {
    WiredProfiles,
    SavedNetworks,
    SavedRefresh,
    Autoconnect,
    ForgetNetwork,
    NetworkDetails,
    DeviceDetails,
    Trust,
    BluetoothAction,
    ForgetDevice,
    VpnAction,
    WiredConnect,
    WiredDisconnect,
    WiredAutoconnect,
}

/// The opening of the error reported for a failed request.
pub open spec fn failure_prefix(f: Failure) -> Seq<char> {
    match f {
        Failure::WiredProfiles => "Failed to fetch wired profiles: "@,
        Failure::SavedNetworks => "Failed to fetch saved networks: "@,
        Failure::SavedRefresh => "Failed to refresh: "@,
        Failure::Autoconnect => "Failed to update autoconnect: "@,
        Failure::ForgetNetwork => "Forget failed: "@,
        Failure::NetworkDetails => "Failed to get network details: "@,
        Failure::DeviceDetails => "Failed to get device details: "@,
        Failure::Trust => "Failed to update trust status: "@,
        Failure::BluetoothAction => "Bluetooth action failed: "@,
        Failure::ForgetDevice => "Forget failed: "@,
        Failure::VpnAction => "VPN Action failed: "@,
        Failure::WiredConnect => "Failed to connect wired: "@,
        Failure::WiredDisconnect => "Failed to disconnect wired: "@,
        Failure::WiredAutoconnect => "Failed to set autoconnect: "@,
    }
}

/// The error event for a failed request (see [`failure_prefix`]).
pub fn failure_event(f: Failure, err: &str) -> (e: PanelEvent)
    ensures
        is_error(e, failure_prefix(f) + err@),
{
    let prefix = match f {
        Failure::WiredProfiles => "Failed to fetch wired profiles: ",
        Failure::SavedNetworks => "Failed to fetch saved networks: ",
        Failure::SavedRefresh => "Failed to refresh: ",
        Failure::Autoconnect => "Failed to update autoconnect: ",
        Failure::ForgetNetwork => "Forget failed: ",
        Failure::NetworkDetails => "Failed to get network details: ",
        Failure::DeviceDetails => "Failed to get device details: ",
        Failure::Trust => "Failed to update trust status: ",
        Failure::BluetoothAction => "Bluetooth action failed: ",
        Failure::ForgetDevice => "Forget failed: ",
        Failure::VpnAction => "VPN Action failed: ",
        Failure::WiredConnect => "Failed to connect wired: ",
        Failure::WiredDisconnect => "Failed to disconnect wired: ",
        Failure::WiredAutoconnect => "Failed to set autoconnect: ",
    };
    PanelEvent::Error(text_event(prefix, err))
}

/// The events once an action on a Bluetooth device has been answered: the
/// action is over, and a failure is reported. Forgetting a device from its
/// details also says so when it worked.
pub fn device_action_outcome(from_details: bool, result: &Result<(), String>) -> (ev: Vec<
    PanelEvent,
>)
    ensures
        ev@[0] is BtActionComplete,
        match result {
            Ok(_) => if from_details {
                ev.len() == 2 && is_notice(ev@[1], "Device forgotten"@)
            } else {
                ev.len() == 1
            },
            Err(e) => ev.len() == 2 && is_error(
                ev@[1],
                (if from_details {
                    failure_prefix(Failure::ForgetDevice)
                } else {
                    failure_prefix(Failure::BluetoothAction)
                }) + e@,
            ),
        },
{
    let mut ev: Vec<PanelEvent> = Vec::new();
    ev.push(PanelEvent::BtActionComplete);
    match result {
        Ok(_) => {
            if from_details {
                ev.push(PanelEvent::Notify(owned("Device forgotten")));
            }
        },
        Err(e) => {
            let f = if from_details {
                Failure::ForgetDevice
            } else {
                Failure::BluetoothAction
            };
            ev.push(failure_event(f, e.as_str()));
        },
    }
    ev
}

/// The name servers of a network, IPv4 ones first.
pub fn name_servers(d: &NetworkDetails) -> (v: Vec<String>)
    ensures
        text_views(v@) == text_views(d.ipv4_dns@) + text_views(d.ipv6_dns@),
{
    let mut v = crate::wired::copy_strings(&d.ipv4_dns);
    let mut w = crate::wired::copy_strings(&d.ipv6_dns);
    let ghost a = v@;
    let ghost b = w@;
    v.append(&mut w);
    assert(v@ == a + b);
    assert(text_views(v@) =~= text_views(a) + text_views(b));
    v
}

} // verus!
