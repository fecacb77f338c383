//! The panel's event loop as a state machine: each event (a scan result, a
//! power change, a request of a client, a reply of the Bluetooth agent...)
//! gives the next state of the panel and the actions to carry out.

use vstd::prelude::*;
use crate::scan::AccessPoint;
use crate::network::{SavedNetwork, text_views};
use crate::wired::{NetworkDetails, WiredProfile};
use crate::vpn::{VpnProfile, Command, CommandView};
use crate::devices::{
    BluetoothDevice, BluetoothDeviceDetails, DeviceAction, device_views, name_at_path,
    get_device_name,
};
use crate::cli::DaemonCommand;
use crate::actions::Radio;
use crate::messages::{friendly_error, sanitize_error_message};
use crate::text::{owned, push_str, str_eq};

verus! {

// ---------------------------------------------------------------------------
// State, events and actions
// ---------------------------------------------------------------------------

/// The Wi-Fi list: its networks, and the network being connected or
/// disconnected, if any.
pub struct WifiRows {
    pub networks: Vec<AccessPoint>,
    pub connecting: Option<String>,
    pub disconnecting: Option<String>,
}

/// The Bluetooth list: its devices, and the device an action runs on, with
/// that action.
pub struct DeviceRows {
    pub devices: Vec<BluetoothDevice>,
    pub action_path: Option<String>,
    pub action: Option<DeviceAction>,
}

/// What the event loop knows of the panel.
pub struct PanelState {
    /// Whether the window is shown.
    pub visible: bool,
    /// Whether a power switch change is under way (power reports are then
    /// ignored).
    pub switching_power: bool,
    /// The page shown (`wifi`, `saved`, `bluetooth`, `vpn`).
    pub page: Option<String>,
    /// When the last full refresh started, in milliseconds of a monotonic
    /// clock.
    pub last_refresh_ms: u64,
    pub wifi: WifiRows,
    pub bluetooth: DeviceRows,
}

/// Something that happened, as reported to the event loop.
pub enum PanelEvent {
    WifiScanResult(Vec<AccessPoint>),
    SavedNetworksResult(Vec<SavedNetwork>),
    NetworkDetailsResult(NetworkDetails),
    BtScanResult(Vec<BluetoothDevice>),
    BtDeviceDetailsResult(BluetoothDeviceDetails),
    WifiPowerState(bool),
    BtPowerState(bool),
    /// The user flipped the header's power switch to this state.
    PowerSwitchFlipped(bool),
    /// The power switch change is over: its call was answered and the
    /// settling time went by.
    PowerSwitchSettled,
    ConnectStarted(String),
    ConnectSuccess,
    /// A hidden network to join: its name and password (empty for none).
    ConnectHidden(String, String),
    DisconnectStarted(String),
    BtActionStarted(String, DeviceAction),
    BtTrustStarted(String, bool),
    BtActionComplete,
    BtTrustComplete,
    /// The agent asks for a PIN for the device at this path.
    BtPinRequest(String),
    /// The agent shows a PIN to type on the device.
    BtPinDisplay(String, String),
    /// The agent asks for a passkey.
    BtPasskeyRequest(String),
    /// The agent shows a passkey to type, with the digits entered so far.
    BtPasskeyDisplay(String, u32, u16),
    /// The agent asks to confirm a passkey.
    BtConfirmRequest(String, u32),
    /// The agent asks to authorize a device.
    BtAuthRequest(String),
    BtAgentCancel,
    VpnProfilesResult(Vec<VpnProfile>),
    WiredProfilesResult(Vec<WiredProfile>),
    /// Public address, provider, name servers, and whether the traffic looks
    /// protected.
    PublicIpResult(String, String, Vec<String>, bool),
    Error(String),
    Notify(String),
    CaptivePortal(String),
    Daemon(DaemonCommand),
}

/// Something for the event loop to carry out.
pub enum PanelAction {
    /// Draw the Wi-Fi list from the state.
    ShowNetworks,
    /// Draw the Bluetooth list from the state.
    ShowDevices,
    ShowSavedNetworks(Vec<SavedNetwork>),
    ShowNetworkDetails(NetworkDetails),
    ShowDeviceDetails(BluetoothDeviceDetails),
    /// Set the header's power switch.
    SetPowerSwitch(bool),
    /// Switch a radio on or off, then report its state (`WifiPowerState`,
    /// or the events of `bluetooth_power_outcome`).
    SwitchRadio(Radio, bool),
    /// Once the radio call (if any) is answered, wait this many
    /// milliseconds and report `PowerSwitchSettled`.
    SettlePowerSwitchAfter(u64),
    /// Read the Bluetooth devices again after this many milliseconds.
    RefreshDevicesAfter(u64),
    ShowError(String),
    /// Start a program without waiting for it.
    Run(Command),
    HidePasswordDialog,
    /// Join a hidden network, with its password if one was given.
    JoinHidden(String, Option<String>),
    ShowPinRequest(String),
    ShowPinDisplay(String, String),
    ShowPasskeyRequest(String),
    ShowPasskeyDisplay(String, u32),
    ShowConfirmRequest(String, u32),
    CancelAgent,
    ShowVpnProfiles(Vec<VpnProfile>),
    ShowWiredProfiles(Vec<WiredProfile>),
    ShowPrivacy(String, String, Vec<String>, bool),
    ShowWindow,
    HideWindow,
    SetPosition(String),
    SetTab(String),
    /// Read everything again in the background: power states, networks,
    /// VPN profiles, devices, name servers and the public address.
    FullRefresh,
    ReloadTheme,
    ReloadConfig,
    Quit,
}

/// The mathematical value of a [`PanelAction`]: texts as sequences of
/// characters, commands by their view.
pub enum PanelActionView {
    ShowNetworks,
    ShowDevices,
    ShowSavedNetworks(Vec<SavedNetwork>),
    ShowNetworkDetails(NetworkDetails),
    ShowDeviceDetails(BluetoothDeviceDetails),
    SetPowerSwitch(bool),
    SwitchRadio(Radio, bool),
    SettlePowerSwitchAfter(u64),
    RefreshDevicesAfter(u64),
    ShowError(Seq<char>),
    Run(CommandView),
    HidePasswordDialog,
    JoinHidden(Seq<char>, Option<Seq<char>>),
    ShowPinRequest(Seq<char>),
    ShowPinDisplay(Seq<char>, Seq<char>),
    ShowPasskeyRequest(Seq<char>),
    ShowPasskeyDisplay(Seq<char>, u32),
    ShowConfirmRequest(Seq<char>, u32),
    CancelAgent,
    ShowVpnProfiles(Vec<VpnProfile>),
    ShowWiredProfiles(Vec<WiredProfile>),
    ShowPrivacy(Seq<char>, Seq<char>, Seq<Seq<char>>, bool),
    ShowWindow,
    HideWindow,
    SetPosition(Seq<char>),
    SetTab(Seq<char>),
    FullRefresh,
    ReloadTheme,
    ReloadConfig,
    Quit,
}

impl View for PanelAction {
    type V = PanelActionView;

    open spec fn view(&self) -> PanelActionView {
        match self {
            PanelAction::ShowNetworks => PanelActionView::ShowNetworks,
            PanelAction::ShowDevices => PanelActionView::ShowDevices,
            PanelAction::ShowSavedNetworks(v) => PanelActionView::ShowSavedNetworks(*v),
            PanelAction::ShowNetworkDetails(d) => PanelActionView::ShowNetworkDetails(*d),
            PanelAction::ShowDeviceDetails(d) => PanelActionView::ShowDeviceDetails(*d),
            PanelAction::SetPowerSwitch(b) => PanelActionView::SetPowerSwitch(*b),
            PanelAction::SwitchRadio(r, b) => PanelActionView::SwitchRadio(*r, *b),
            PanelAction::SettlePowerSwitchAfter(ms) => PanelActionView::SettlePowerSwitchAfter(*ms),
            PanelAction::RefreshDevicesAfter(ms) => PanelActionView::RefreshDevicesAfter(*ms),
            PanelAction::ShowError(m) => PanelActionView::ShowError(m@),
            PanelAction::Run(c) => PanelActionView::Run(c@),
            PanelAction::HidePasswordDialog => PanelActionView::HidePasswordDialog,
            PanelAction::JoinHidden(s, p) => PanelActionView::JoinHidden(
                s@,
                crate::scan::opt_text(*p),
            ),
            PanelAction::ShowPinRequest(n) => PanelActionView::ShowPinRequest(n@),
            PanelAction::ShowPinDisplay(n, p) => PanelActionView::ShowPinDisplay(n@, p@),
            PanelAction::ShowPasskeyRequest(n) => PanelActionView::ShowPasskeyRequest(n@),
            PanelAction::ShowPasskeyDisplay(n, k) => PanelActionView::ShowPasskeyDisplay(n@, *k),
            PanelAction::ShowConfirmRequest(n, k) => PanelActionView::ShowConfirmRequest(n@, *k),
            PanelAction::CancelAgent => PanelActionView::CancelAgent,
            PanelAction::ShowVpnProfiles(v) => PanelActionView::ShowVpnProfiles(*v),
            PanelAction::ShowWiredProfiles(v) => PanelActionView::ShowWiredProfiles(*v),
            PanelAction::ShowPrivacy(ip, isp, dns, secure) => PanelActionView::ShowPrivacy(
                ip@,
                isp@,
                text_views(dns@),
                *secure,
            ),
            PanelAction::ShowWindow => PanelActionView::ShowWindow,
            PanelAction::HideWindow => PanelActionView::HideWindow,
            PanelAction::SetPosition(p) => PanelActionView::SetPosition(p@),
            PanelAction::SetTab(t) => PanelActionView::SetTab(t@),
            PanelAction::FullRefresh => PanelActionView::FullRefresh,
            PanelAction::ReloadTheme => PanelActionView::ReloadTheme,
            PanelAction::ReloadConfig => PanelActionView::ReloadConfig,
            PanelAction::Quit => PanelActionView::Quit,
        }
    }
}

/// The views of a list of actions.
pub open spec fn action_views(s: Seq<PanelAction>) -> Seq<PanelActionView> {
    s.map_values(|a: PanelAction| a@)
}

// ---------------------------------------------------------------------------
// Fixed commands and texts
// ---------------------------------------------------------------------------

/// The desktop notification that shows `msg`.
pub open spec fn notify_command_of(msg: Seq<char>) -> CommandView {
    CommandView {
        program: "notify-send"@,
        args: seq!["Orbit"@, msg, "--app-name=Orbit"@, "-i"@, "network-wireless"@],
        wait: false,
    }
}

/// The desktop notification that shows `msg` (see [`notify_command_of`]).
pub fn notify_command(msg: &str) -> (c: Command)
    ensures
        c@ == notify_command_of(msg@),
{
    let mut args: Vec<String> = Vec::new();
    args.push(owned("Orbit"));
    args.push(owned(msg));
    args.push(owned("--app-name=Orbit"));
    args.push(owned("-i"));
    args.push(owned("network-wireless"));
    let c = Command { program: owned("notify-send"), args, wait: false };
    assert(c@.args =~= notify_command_of(msg@).args);
    c
}

/// The notice that a network holds back traffic behind a login page.
pub open spec fn captive_text(ssid: Seq<char>) -> Seq<char> {
    "Captive portal detected on "@ + ssid + " — opening login page..."@
}

/// The browser opened on a page that a login portal will intercept.
pub open spec fn portal_page_command() -> CommandView {
    CommandView { program: "xdg-open"@, args: seq!["http://neverssl.com"@], wait: false }
}

fn portal_page() -> (c: Command)
    ensures
        c@ == portal_page_command(),
{
    let mut args: Vec<String> = Vec::new();
    args.push(owned("http://neverssl.com"));
    let c = Command { program: owned("xdg-open"), args, wait: false };
    assert(c@.args =~= portal_page_command().args);
    c
}

/// The name shown for the device at `path`: its name in the list, or
/// "Unknown Device".
pub open spec fn agent_name(devices: Vec<BluetoothDevice>, path: Seq<char>) -> Seq<char> {
    match name_at_path(device_views(devices@), path) {
        Some(n) => n,
        None => "Unknown Device"@,
    }
}

fn device_name_or_unknown(devices: &Vec<BluetoothDevice>, path: &str) -> (n: String)
    ensures
        n@ == agent_name(*devices, path@),
{
    match get_device_name(devices, path) {
        Some(n) => n,
        None => owned("Unknown Device"),
    }
}

/// Whether a full refresh is due: more than two seconds since the last one.
pub open spec fn refresh_due(last_ms: u64, now_ms: u64) -> bool {
    now_ms > last_ms && now_ms - last_ms > 2000
}

// ---------------------------------------------------------------------------
// The step
// ---------------------------------------------------------------------------

/// Whether the page shown is one of the Wi-Fi pages.
pub open spec fn on_wifi_page(page: Option<String>) -> bool {
    match page {
        Some(p) => p@ == "wifi"@ || p@ == "saved"@,
        None => false,
    }
}

/// Whether the page shown is the Bluetooth page.
pub open spec fn on_bluetooth_page(page: Option<String>) -> bool {
    match page {
        Some(p) => p@ == "bluetooth"@,
        None => false,
    }
}

/// Showing the window: the actions and whether a refresh starts.
pub open spec fn show_actions(s: PanelState, now_ms: u64) -> Seq<PanelActionView> {
    if refresh_due(s.last_refresh_ms, now_ms) {
        seq![PanelActionView::ShowWindow, PanelActionView::FullRefresh]
    } else {
        seq![PanelActionView::ShowWindow]
    }
}

/// The refresh clock after showing the window.
pub open spec fn refreshed_at(s: PanelState, now_ms: u64) -> u64 {
    if refresh_due(s.last_refresh_ms, now_ms) {
        now_ms
    } else {
        s.last_refresh_ms
    }
}

/// The actions for an event in state `s` at time `now_ms`.
pub open spec fn step_actions(s: PanelState, e: PanelEvent, now_ms: u64) -> Seq<PanelActionView> {
    match e {
        PanelEvent::WifiScanResult(_) => seq![PanelActionView::ShowNetworks],
        PanelEvent::SavedNetworksResult(v) => seq![PanelActionView::ShowSavedNetworks(v)],
        PanelEvent::NetworkDetailsResult(d) => seq![PanelActionView::ShowNetworkDetails(d)],
        PanelEvent::BtScanResult(_) => seq![PanelActionView::ShowDevices],
        PanelEvent::BtDeviceDetailsResult(d) => seq![PanelActionView::ShowDeviceDetails(d)],
        PanelEvent::WifiPowerState(on) => if !s.switching_power && on_wifi_page(s.page) {
            seq![PanelActionView::SetPowerSwitch(on)]
        } else {
            seq![]
        },
        PanelEvent::BtPowerState(on) => if !s.switching_power && on_bluetooth_page(s.page) {
            if on {
                seq![PanelActionView::SetPowerSwitch(on), PanelActionView::RefreshDevicesAfter(1500)]
            } else {
                seq![PanelActionView::SetPowerSwitch(on)]
            }
        } else {
            seq![]
        },
        PanelEvent::PowerSwitchFlipped(on) => (if on_wifi_page(s.page) {
            seq![PanelActionView::SwitchRadio(Radio::Wifi, on)]
        } else if on_bluetooth_page(s.page) {
            seq![PanelActionView::SwitchRadio(Radio::Bluetooth, on)]
        } else {
            seq![]
        }) + seq![PanelActionView::SettlePowerSwitchAfter(2000)],
        PanelEvent::PowerSwitchSettled => seq![],
        PanelEvent::ConnectStarted(_) => seq![PanelActionView::ShowNetworks],
        PanelEvent::ConnectSuccess => seq![
            PanelActionView::ShowNetworks,
            PanelActionView::HidePasswordDialog,
        ],
        PanelEvent::ConnectHidden(ssid, pwd) => seq![
            PanelActionView::JoinHidden(
                ssid@,
                if pwd@.len() == 0 {
                    None
                } else {
                    Some(pwd@)
                },
            ),
        ],
        PanelEvent::DisconnectStarted(_) => seq![PanelActionView::ShowNetworks],
        PanelEvent::BtActionStarted(_, _) => seq![PanelActionView::ShowDevices],
        PanelEvent::BtTrustStarted(_, _) => seq![],
        PanelEvent::BtActionComplete => seq![PanelActionView::ShowDevices],
        PanelEvent::BtTrustComplete => seq![],
        PanelEvent::BtPinRequest(p) => seq![
            PanelActionView::ShowPinRequest(agent_name(s.bluetooth.devices, p@)),
            PanelActionView::ShowWindow,
        ],
        PanelEvent::BtPinDisplay(p, pin) => seq![
            PanelActionView::ShowPinDisplay(agent_name(s.bluetooth.devices, p@), pin@),
            PanelActionView::ShowWindow,
        ],
        PanelEvent::BtPasskeyRequest(p) => seq![
            PanelActionView::ShowPasskeyRequest(agent_name(s.bluetooth.devices, p@)),
            PanelActionView::ShowWindow,
        ],
        PanelEvent::BtPasskeyDisplay(p, k, _) => seq![
            PanelActionView::ShowPasskeyDisplay(agent_name(s.bluetooth.devices, p@), k),
            PanelActionView::ShowWindow,
        ],
        PanelEvent::BtConfirmRequest(p, k) => seq![
            PanelActionView::ShowConfirmRequest(agent_name(s.bluetooth.devices, p@), k),
            PanelActionView::ShowWindow,
        ],
        PanelEvent::BtAuthRequest(p) => seq![
            PanelActionView::ShowConfirmRequest(agent_name(s.bluetooth.devices, p@), 0),
            PanelActionView::ShowWindow,
        ],
        PanelEvent::BtAgentCancel => seq![PanelActionView::CancelAgent],
        PanelEvent::VpnProfilesResult(v) => seq![PanelActionView::ShowVpnProfiles(v)],
        PanelEvent::WiredProfilesResult(v) => seq![PanelActionView::ShowWiredProfiles(v)],
        PanelEvent::PublicIpResult(ip, isp, dns, secure) => seq![
            PanelActionView::ShowPrivacy(ip@, isp@, text_views(dns@), secure),
        ],
        PanelEvent::Error(m) => seq![
            PanelActionView::ShowNetworks,
            PanelActionView::ShowError(friendly_error(m@)),
        ],
        PanelEvent::Notify(m) => seq![PanelActionView::Run(notify_command_of(m@))],
        PanelEvent::CaptivePortal(ssid) => seq![
            PanelActionView::Run(notify_command_of(captive_text(ssid@))),
            PanelActionView::Run(portal_page_command()),
        ],
        PanelEvent::Daemon(c) => match c {
            DaemonCommand::Show => show_actions(s, now_ms),
            DaemonCommand::Hide => seq![PanelActionView::HideWindow],
            DaemonCommand::Toggle(pos, tab) => if s.visible {
                seq![PanelActionView::HideWindow]
            } else {
                (match pos {
                    Some(p) => seq![PanelActionView::SetPosition(p@)],
                    None => seq![],
                }) + (match tab {
                    Some(t) => seq![PanelActionView::SetTab(t@)],
                    None => seq![],
                }) + show_actions(s, now_ms)
            },
            DaemonCommand::ReloadTheme => seq![PanelActionView::ReloadTheme],
            DaemonCommand::ReloadConfig => seq![PanelActionView::ReloadConfig],
            DaemonCommand::Quit => seq![PanelActionView::Quit],
        },
    }
}

/// The Wi-Fi list after an event.
pub open spec fn next_wifi(w: WifiRows, e: PanelEvent) -> WifiRows {
    match e {
        PanelEvent::WifiScanResult(v) => WifiRows {
            networks: v,
            connecting: None,
            disconnecting: None,
        },
        PanelEvent::ConnectStarted(ssid) => WifiRows {
            networks: w.networks,
            connecting: Some(ssid),
            disconnecting: w.disconnecting,
        },
        PanelEvent::DisconnectStarted(ssid) => WifiRows {
            networks: w.networks,
            connecting: w.connecting,
            disconnecting: Some(ssid),
        },
        PanelEvent::ConnectSuccess | PanelEvent::Error(_) => WifiRows {
            networks: w.networks,
            connecting: None,
            disconnecting: None,
        },
        _ => w,
    }
}

/// The Bluetooth list after an event.
pub open spec fn next_devices(d: DeviceRows, e: PanelEvent) -> DeviceRows {
    match e {
        PanelEvent::BtScanResult(v) => DeviceRows { devices: v, action_path: None, action: None },
        PanelEvent::BtActionStarted(p, a) => DeviceRows {
            devices: d.devices,
            action_path: Some(p),
            action: Some(a),
        },
        PanelEvent::BtActionComplete => DeviceRows {
            devices: d.devices,
            action_path: None,
            action: None,
        },
        _ => d,
    }
}

/// Whether an event brings up an agent dialog, which shows the window.
pub open spec fn is_agent_prompt(e: PanelEvent) -> bool {
    match e {
        PanelEvent::BtPinRequest(_) | PanelEvent::BtPinDisplay(_, _)
        | PanelEvent::BtPasskeyRequest(_) | PanelEvent::BtPasskeyDisplay(_, _, _)
        | PanelEvent::BtConfirmRequest(_, _) | PanelEvent::BtAuthRequest(_) => true,
        _ => false,
    }
}

/// Whether the window is shown after an event.
pub open spec fn next_visible(s: PanelState, e: PanelEvent) -> bool {
    if is_agent_prompt(e) {
        true
    } else {
        match e {
            PanelEvent::Daemon(DaemonCommand::Show) => true,
            PanelEvent::Daemon(DaemonCommand::Hide) => false,
            PanelEvent::Daemon(DaemonCommand::Toggle(_, _)) => !s.visible,
            _ => s.visible,
        }
    }
}

/// The page shown after an event: a toggle that shows the window with a tab
/// opens that tab.
pub open spec fn next_page(s: PanelState, e: PanelEvent) -> Option<String> {
    match e {
        PanelEvent::Daemon(DaemonCommand::Toggle(_, Some(t))) => if s.visible {
            s.page
        } else {
            Some(t)
        },
        _ => s.page,
    }
}

/// Whether a power switch change is under way after an event: from the
/// flip until it settles.
pub open spec fn next_switching(s: PanelState, e: PanelEvent) -> bool {
    match e {
        PanelEvent::PowerSwitchFlipped(_) => true,
        PanelEvent::PowerSwitchSettled => false,
        _ => s.switching_power,
    }
}

/// The refresh clock after an event.
pub open spec fn next_refresh(s: PanelState, e: PanelEvent, now_ms: u64) -> u64 {
    match e {
        PanelEvent::Daemon(DaemonCommand::Show) => refreshed_at(s, now_ms),
        PanelEvent::Daemon(DaemonCommand::Toggle(_, _)) => if s.visible {
            s.last_refresh_ms
        } else {
            refreshed_at(s, now_ms)
        },
        _ => s.last_refresh_ms,
    }
}

fn show_window(state: &mut PanelState, now_ms: u64, acts: &mut Vec<PanelAction>)
    ensures
        final(state).visible,
        final(state).switching_power == old(state).switching_power,
        final(state).page == old(state).page,
        final(state).wifi == old(state).wifi,
        final(state).bluetooth == old(state).bluetooth,
        final(state).last_refresh_ms == refreshed_at(*old(state), now_ms),
        action_views(final(acts)@) == action_views(old(acts)@) + show_actions(*old(state), now_ms),
{
    let ghost before = action_views(acts@);
    acts.push(PanelAction::ShowWindow);
    state.visible = true;
    if now_ms > state.last_refresh_ms && now_ms - state.last_refresh_ms > 2000 {
        state.last_refresh_ms = now_ms;
        acts.push(PanelAction::FullRefresh);
    }
    assert(action_views(acts@) =~= before + show_actions(*old(state), now_ms));
}

/// Handles one event: updates the state and returns the actions to carry
/// out, in order (see [`step_actions`] and the `next_` functions).
pub fn step(state: &mut PanelState, event: PanelEvent, now_ms: u64) -> (acts: Vec<PanelAction>)
    ensures
        action_views(acts@) == step_actions(*old(state), event, now_ms),
        final(state).wifi == next_wifi(old(state).wifi, event),
        final(state).bluetooth == next_devices(old(state).bluetooth, event),
        final(state).visible == next_visible(*old(state), event),
        final(state).page == next_page(*old(state), event),
        final(state).last_refresh_ms == next_refresh(*old(state), event, now_ms),
        final(state).switching_power == next_switching(*old(state), event),
{
    let ghost s0 = *state;
    let ghost e0 = event;
    let mut acts: Vec<PanelAction> = Vec::new();
    match event {
        PanelEvent::WifiScanResult(v) => {
            state.wifi = WifiRows { networks: v, connecting: None, disconnecting: None };
            acts.push(PanelAction::ShowNetworks);
        },
        PanelEvent::SavedNetworksResult(v) => {
            acts.push(PanelAction::ShowSavedNetworks(v));
        },
        PanelEvent::NetworkDetailsResult(d) => {
            acts.push(PanelAction::ShowNetworkDetails(d));
        },
        PanelEvent::BtScanResult(v) => {
            state.bluetooth = DeviceRows { devices: v, action_path: None, action: None };
            acts.push(PanelAction::ShowDevices);
        },
        PanelEvent::BtDeviceDetailsResult(d) => {
            acts.push(PanelAction::ShowDeviceDetails(d));
        },
        PanelEvent::WifiPowerState(on) => {
            let wifi_page = match &state.page {
                Some(p) => str_eq(p.as_str(), "wifi") || str_eq(p.as_str(), "saved"),
                None => false,
            };
            if !state.switching_power && wifi_page {
                acts.push(PanelAction::SetPowerSwitch(on));
            }
        },
        PanelEvent::BtPowerState(on) => {
            let bt_page = match &state.page {
                Some(p) => str_eq(p.as_str(), "bluetooth"),
                None => false,
            };
            if !state.switching_power && bt_page {
                acts.push(PanelAction::SetPowerSwitch(on));
                if on {
                    acts.push(PanelAction::RefreshDevicesAfter(1500));
                }
            }
        },
        PanelEvent::PowerSwitchFlipped(on) => {
            let wifi_page = match &state.page {
                Some(p) => str_eq(p.as_str(), "wifi") || str_eq(p.as_str(), "saved"),
                None => false,
            };
            let bt_page = match &state.page {
                Some(p) => str_eq(p.as_str(), "bluetooth"),
                None => false,
            };
            if wifi_page {
                acts.push(PanelAction::SwitchRadio(Radio::Wifi, on));
            } else if bt_page {
                acts.push(PanelAction::SwitchRadio(Radio::Bluetooth, on));
            }
            acts.push(PanelAction::SettlePowerSwitchAfter(2000));
            state.switching_power = true;
        },
        PanelEvent::PowerSwitchSettled => {
            state.switching_power = false;
        },
        PanelEvent::ConnectStarted(ssid) => {
            state.wifi.connecting = Some(ssid);
            acts.push(PanelAction::ShowNetworks);
        },
        PanelEvent::ConnectSuccess => {
            state.wifi.connecting = None;
            state.wifi.disconnecting = None;
            acts.push(PanelAction::ShowNetworks);
            acts.push(PanelAction::HidePasswordDialog);
        },
        PanelEvent::ConnectHidden(ssid, pwd) => {
            let password = if pwd.as_str().unicode_len() == 0 {
                None
            } else {
                Some(pwd)
            };
            acts.push(PanelAction::JoinHidden(ssid, password));
        },
        PanelEvent::DisconnectStarted(ssid) => {
            state.wifi.disconnecting = Some(ssid);
            acts.push(PanelAction::ShowNetworks);
        },
        PanelEvent::BtActionStarted(p, a) => {
            state.bluetooth.action_path = Some(p);
            state.bluetooth.action = Some(a);
            acts.push(PanelAction::ShowDevices);
        },
        PanelEvent::BtTrustStarted(_, _) => {},
        PanelEvent::BtActionComplete => {
            state.bluetooth.action_path = None;
            state.bluetooth.action = None;
            acts.push(PanelAction::ShowDevices);
        },
        PanelEvent::BtTrustComplete => {},
        PanelEvent::BtPinRequest(p) => {
            let n = device_name_or_unknown(&state.bluetooth.devices, p.as_str());
            acts.push(PanelAction::ShowPinRequest(n));
            acts.push(PanelAction::ShowWindow);
            state.visible = true;
        },
        PanelEvent::BtPinDisplay(p, pin) => {
            let n = device_name_or_unknown(&state.bluetooth.devices, p.as_str());
            acts.push(PanelAction::ShowPinDisplay(n, pin));
            acts.push(PanelAction::ShowWindow);
            state.visible = true;
        },
        PanelEvent::BtPasskeyRequest(p) => {
            let n = device_name_or_unknown(&state.bluetooth.devices, p.as_str());
            acts.push(PanelAction::ShowPasskeyRequest(n));
            acts.push(PanelAction::ShowWindow);
            state.visible = true;
        },
        PanelEvent::BtPasskeyDisplay(p, k, _) => {
            let n = device_name_or_unknown(&state.bluetooth.devices, p.as_str());
            acts.push(PanelAction::ShowPasskeyDisplay(n, k));
            acts.push(PanelAction::ShowWindow);
            state.visible = true;
        },
        PanelEvent::BtConfirmRequest(p, k) => {
            let n = device_name_or_unknown(&state.bluetooth.devices, p.as_str());
            acts.push(PanelAction::ShowConfirmRequest(n, k));
            acts.push(PanelAction::ShowWindow);
            state.visible = true;
        },
        PanelEvent::BtAuthRequest(p) => {
            let n = device_name_or_unknown(&state.bluetooth.devices, p.as_str());
            acts.push(PanelAction::ShowConfirmRequest(n, 0));
            acts.push(PanelAction::ShowWindow);
            state.visible = true;
        },
        PanelEvent::BtAgentCancel => {
            acts.push(PanelAction::CancelAgent);
        },
        PanelEvent::VpnProfilesResult(v) => {
            acts.push(PanelAction::ShowVpnProfiles(v));
        },
        PanelEvent::WiredProfilesResult(v) => {
            acts.push(PanelAction::ShowWiredProfiles(v));
        },
        PanelEvent::PublicIpResult(ip, isp, dns, secure) => {
            acts.push(PanelAction::ShowPrivacy(ip, isp, dns, secure));
        },
        PanelEvent::Error(m) => {
            state.wifi.connecting = None;
            state.wifi.disconnecting = None;
            acts.push(PanelAction::ShowNetworks);
            acts.push(PanelAction::ShowError(sanitize_error_message(m.as_str())));
        },
        PanelEvent::Notify(m) => {
            acts.push(PanelAction::Run(notify_command(m.as_str())));
        },
        PanelEvent::CaptivePortal(ssid) => {
            let mut text = owned("Captive portal detected on ");
            push_str(&mut text, ssid.as_str());
            push_str(&mut text, " — opening login page...");
            acts.push(PanelAction::Run(notify_command(text.as_str())));
            acts.push(PanelAction::Run(portal_page()));
        },
        PanelEvent::Daemon(c) => {
            match c {
                DaemonCommand::Show => {
                    show_window(state, now_ms, &mut acts);
                },
                DaemonCommand::Hide => {
                    acts.push(PanelAction::HideWindow);
                    state.visible = false;
                },
                DaemonCommand::Toggle(pos, tab) => {
                    if state.visible {
                        acts.push(PanelAction::HideWindow);
                        state.visible = false;
                    } else {
                        if let Some(p) = pos {
                            acts.push(PanelAction::SetPosition(p));
                        }
                        if let Some(t) = tab {
                            state.page = Some(t.clone());
                            acts.push(PanelAction::SetTab(t));
                        }
                        show_window(state, now_ms, &mut acts);
                    }
                },
                DaemonCommand::ReloadTheme => {
                    acts.push(PanelAction::ReloadTheme);
                },
                DaemonCommand::ReloadConfig => {
                    acts.push(PanelAction::ReloadConfig);
                },
                DaemonCommand::Quit => {
                    acts.push(PanelAction::Quit);
                },
            }
        },
    }
    assert(action_views(acts@) =~= step_actions(s0, e0, now_ms));
    acts
}

// ---------------------------------------------------------------------------
// Laws
// ---------------------------------------------------------------------------

/// A full refresh never starts again within two seconds of the last one.
pub proof fn lemma_refresh_cooldown(s: PanelState, e: PanelEvent, now: u64, later: u64)
    requires
        step_actions(s, e, now).contains(PanelActionView::FullRefresh),
        now <= later <= now + 2000,
    ensures
        !refresh_due(next_refresh(s, e, now), later),
{
    let acts = step_actions(s, e, now);
    let i = choose|i: int| 0 <= i < acts.len() && acts[i] == PanelActionView::FullRefresh;
    match e {
        PanelEvent::Daemon(DaemonCommand::Show) => {
            assert(refresh_due(s.last_refresh_ms, now));
        },
        PanelEvent::Daemon(DaemonCommand::Toggle(pos, tab)) => {
            assert(!s.visible);
            let head = (match pos {
                Some(p) => seq![PanelActionView::SetPosition(p@)],
                None => seq![],
            }) + (match tab {
                Some(t) => seq![PanelActionView::SetTab(t@)],
                None => seq![],
            });
            assert(acts == head + show_actions(s, now));
            assert(refresh_due(s.last_refresh_ms, now));
        },
        _ => {
            assert(false);
        },
    }
}

/// Two toggles in a row leave the window as it was.
pub proof fn lemma_toggle_twice(
    s: PanelState,
    p1: Option<String>,
    t1: Option<String>,
    p2: Option<String>,
    t2: Option<String>,
    mid: PanelState,
)
    requires
        mid.visible == next_visible(s, PanelEvent::Daemon(DaemonCommand::Toggle(p1, t1))),
    ensures
        next_visible(mid, PanelEvent::Daemon(DaemonCommand::Toggle(p2, t2))) == s.visible,
{
}

/// While the power switch is being changed, power reports change nothing on
/// screen.
pub proof fn lemma_switching_ignores_power(s: PanelState, on: bool)
    requires
        s.switching_power,
    ensures
        step_actions(s, PanelEvent::WifiPowerState(on), 0) == Seq::<PanelActionView>::empty(),
        step_actions(s, PanelEvent::BtPowerState(on), 0) == Seq::<PanelActionView>::empty(),
{
}

/// From the flip of the power switch until the change settles, power
/// reports change nothing on screen: `t` is any state whose switching flag
/// is the one a flip leaves.
pub proof fn lemma_flip_holds_power_reports(s: PanelState, t: PanelState, on: bool, x: bool, now: u64)
    requires
        t.switching_power == next_switching(s, PanelEvent::PowerSwitchFlipped(on)),
    ensures
        step_actions(t, PanelEvent::WifiPowerState(x), now) == Seq::<PanelActionView>::empty(),
        step_actions(t, PanelEvent::BtPowerState(x), now) == Seq::<PanelActionView>::empty(),
{
}

/// Once the change settles, a Wi-Fi power report sets the switch again on
/// the Wi-Fi pages: `t` is any such state whose switching flag is the one
/// the settling leaves.
pub proof fn lemma_settled_takes_power_reports(s: PanelState, t: PanelState, x: bool, now: u64)
    requires
        t.switching_power == next_switching(s, PanelEvent::PowerSwitchSettled),
        on_wifi_page(t.page),
    ensures
        step_actions(t, PanelEvent::WifiPowerState(x), now) == seq![PanelActionView::SetPowerSwitch(x)],
{
}

/// Every request of the Bluetooth pairing agent that opens a dialog (PIN
/// request or display, passkey request or display, confirmation,
/// authorization) shows the window among its actions and leaves the panel
/// visible, whatever the state.
pub proof fn lemma_agent_prompts_show_window(
    s: PanelState,
    path: String,
    pin: String,
    key: u32,
    entered: u16,
    now: u64,
)
    ensures
        step_actions(s, PanelEvent::BtPinRequest(path), now).contains(PanelActionView::ShowWindow),
        next_visible(s, PanelEvent::BtPinRequest(path)),
        step_actions(s, PanelEvent::BtPinDisplay(path, pin), now).contains(PanelActionView::ShowWindow),
        next_visible(s, PanelEvent::BtPinDisplay(path, pin)),
        step_actions(s, PanelEvent::BtPasskeyRequest(path), now).contains(PanelActionView::ShowWindow),
        next_visible(s, PanelEvent::BtPasskeyRequest(path)),
        step_actions(s, PanelEvent::BtPasskeyDisplay(path, key, entered), now).contains(PanelActionView::ShowWindow),
        next_visible(s, PanelEvent::BtPasskeyDisplay(path, key, entered)),
        step_actions(s, PanelEvent::BtConfirmRequest(path, key), now).contains(PanelActionView::ShowWindow),
        next_visible(s, PanelEvent::BtConfirmRequest(path, key)),
        step_actions(s, PanelEvent::BtAuthRequest(path), now).contains(PanelActionView::ShowWindow),
        next_visible(s, PanelEvent::BtAuthRequest(path)),
{
    assert(step_actions(s, PanelEvent::BtPinRequest(path), now)[1] == PanelActionView::ShowWindow);
    assert(step_actions(s, PanelEvent::BtPinDisplay(path, pin), now)[1] == PanelActionView::ShowWindow);
    assert(step_actions(s, PanelEvent::BtPasskeyRequest(path), now)[1] == PanelActionView::ShowWindow);
    assert(step_actions(s, PanelEvent::BtPasskeyDisplay(path, key, entered), now)[1] == PanelActionView::ShowWindow);
    assert(step_actions(s, PanelEvent::BtConfirmRequest(path, key), now)[1] == PanelActionView::ShowWindow);
    assert(step_actions(s, PanelEvent::BtAuthRequest(path), now)[1] == PanelActionView::ShowWindow);
}

/// The name an agent dialog shows for the device at `path`: the name of the
/// first listed device with that path, or "Unknown Device" when none has it.
pub proof fn lemma_agent_dialog_names_device(
    s: PanelState,
    path: String,
    pin: String,
    key: u32,
    entered: u16,
    now: u64,
    k: int,
)
    requires
        0 <= k <= device_views(s.bluetooth.devices@).len(),
        forall|j: int| 0 <= j < k ==> #[trigger] device_views(s.bluetooth.devices@)[j].path != path@,
        k < device_views(s.bluetooth.devices@).len() ==> device_views(s.bluetooth.devices@)[k].path == path@,
    ensures
        ({
            let devs = device_views(s.bluetooth.devices@);
            let n = if k < devs.len() { devs[k].name } else { "Unknown Device"@ };
            &&& step_actions(s, PanelEvent::BtPinRequest(path), now)[0] == PanelActionView::ShowPinRequest(n)
            &&& step_actions(s, PanelEvent::BtPinDisplay(path, pin), now)[0] == PanelActionView::ShowPinDisplay(n, pin@)
            &&& step_actions(s, PanelEvent::BtPasskeyRequest(path), now)[0] == PanelActionView::ShowPasskeyRequest(n)
            &&& step_actions(s, PanelEvent::BtPasskeyDisplay(path, key, entered), now)[0] == PanelActionView::ShowPasskeyDisplay(n, key)
            &&& step_actions(s, PanelEvent::BtConfirmRequest(path, key), now)[0] == PanelActionView::ShowConfirmRequest(n, key)
            &&& step_actions(s, PanelEvent::BtAuthRequest(path), now)[0] == PanelActionView::ShowConfirmRequest(n, 0)
        }),
{
    let devs = device_views(s.bluetooth.devices@);
    crate::devices::lemma_name_at_path_first(devs, path@);
    if k < devs.len() {
        assert(name_at_path(devs, path@) == Some(devs[k].name));
    } else {
        assert(name_at_path(devs, path@) is None);
    }
}

/// An error or a finished connection attempt leaves no network marked as
/// being connected or disconnected.
pub proof fn lemma_settled_rows(w: WifiRows, m: String)
    ensures
        next_wifi(w, PanelEvent::Error(m)).connecting is None,
        next_wifi(w, PanelEvent::Error(m)).disconnecting is None,
        next_wifi(w, PanelEvent::ConnectSuccess).connecting is None,
        next_wifi(w, PanelEvent::ConnectSuccess).disconnecting is None,
{
}

/// The visibility the panel records follows the actions it returns: an event
/// that shows the window leaves it visible, one that hides it leaves it
/// hidden, and any other event leaves the visibility as it was.
pub proof fn lemma_visibility_follows_actions(s: PanelState, e: PanelEvent, now: u64)
    ensures
        step_actions(s, e, now).contains(PanelActionView::ShowWindow) ==> next_visible(s, e),
        step_actions(s, e, now).contains(PanelActionView::HideWindow) ==> !next_visible(s, e),
        !step_actions(s, e, now).contains(PanelActionView::ShowWindow) && !step_actions(
            s,
            e,
            now,
        ).contains(PanelActionView::HideWindow) ==> next_visible(s, e) == s.visible,
{
    let acts = step_actions(s, e, now);
    if is_agent_prompt(e) {
        assert(acts[1] == PanelActionView::ShowWindow);
        assert(acts.len() == 2);
        assert(!acts.contains(PanelActionView::HideWindow)) by {
            assert forall|i: int| 0 <= i < acts.len() implies acts[i] != PanelActionView::HideWindow by {}
        }
    } else {
        match e {
            PanelEvent::Daemon(DaemonCommand::Show) => {
                assert(acts[0] == PanelActionView::ShowWindow);
                assert forall|i: int| 0 <= i < acts.len() implies acts[i] != PanelActionView::HideWindow by {}
            },
            PanelEvent::Daemon(DaemonCommand::Hide) => {
                assert(acts[0] == PanelActionView::HideWindow);
                assert forall|i: int| 0 <= i < acts.len() implies acts[i] != PanelActionView::ShowWindow by {}
            },
            PanelEvent::Daemon(DaemonCommand::Toggle(pos, tab)) => {
                if s.visible {
                    assert(acts[0] == PanelActionView::HideWindow);
                    assert forall|i: int| 0 <= i < acts.len() implies acts[i] != PanelActionView::ShowWindow by {}
                } else {
                    let head = (match pos {
                        Some(p) => seq![PanelActionView::SetPosition(p@)],
                        None => seq![],
                    }) + (match tab {
                        Some(t) => seq![PanelActionView::SetTab(t@)],
                        None => seq![],
                    });
                    let tail = show_actions(s, now);
                    assert(acts == head + tail);
                    assert(acts[head.len() as int] == PanelActionView::ShowWindow);
                    assert forall|i: int| 0 <= i < acts.len() implies acts[i] != PanelActionView::HideWindow by {
                        if i < head.len() {
                            assert(acts[i] == head[i]);
                        } else {
                            assert(acts[i] == tail[i - head.len()]);
                        }
                    }
                }
            },
            _ => {
                assert forall|i: int| 0 <= i < acts.len() implies acts[i] != PanelActionView::ShowWindow
                    && acts[i] != PanelActionView::HideWindow by {}
            },
        }
    }
}

} // verus!
