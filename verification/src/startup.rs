//! Starting the panel: its first state, the retries while the system
//! services come up, the wait for the Wi-Fi to join a network by itself, and
//! the check for a login portal afterwards.

use vstd::prelude::*;
use crate::cli::StartMode;
use crate::events::{PanelState, PanelEvent, WifiRows, DeviceRows};
use crate::text::{owned, push_str};

verus! {

/// The state of the panel when it starts: the Wi-Fi page, shown unless it
/// runs as a daemon, with empty lists and the refresh clock set to now.
pub fn initial_state(mode: StartMode, now_ms: u64) -> (s: PanelState)
    ensures
        s.visible == mode.show_window,
        !s.switching_power,
        crate::scan::opt_text(s.page) == Some("wifi"@),
        s.last_refresh_ms == now_ms,
        s.wifi.networks@.len() == 0,
        s.wifi.connecting is None,
        s.wifi.disconnecting is None,
        s.bluetooth.devices@.len() == 0,
        s.bluetooth.action_path is None,
        s.bluetooth.action is None,
{
    PanelState {
        visible: mode.show_window,
        switching_power: false,
        page: Some(owned("wifi")),
        last_refresh_ms: now_ms,
        wifi: WifiRows { networks: Vec::new(), connecting: None, disconnecting: None },
        bluetooth: DeviceRows { devices: Vec::new(), action_path: None, action: None },
    }
}

/// What to do after an attempt to reach a system service.
#[derive(Clone, Copy, Debug, PartialEq, Eq, Structural)]
pub enum Retry {
    /// It answered.
    Done,
    /// Wait a second and try again.
    WaitAndRetry,
    /// Five attempts failed: go on without it.
    GiveUp,
}

/// What to do after attempt `attempt` (counted from 0) to reach a service:
/// five attempts in all, a second apart.
pub fn service_retry(attempt: u32, reached: bool) -> (r: Retry)
    requires
        attempt < 5,
    ensures
        reached ==> r == Retry::Done,
        !reached && attempt < 4 ==> r == Retry::WaitAndRetry,
        !reached && attempt == 4 ==> r == Retry::GiveUp,
{
    if reached {
        Retry::Done
    } else if attempt < 4 {
        Retry::WaitAndRetry
    } else {
        Retry::GiveUp
    }
}

/// Whether the wait for the Wi-Fi to join a network goes on after
/// `attempts` seconds: it lasts at most fifteen.
pub fn autoconnect_wait_continues(attempts: u32) -> (b: bool)
    ensures
        b == (attempts < 15),
{
    attempts < 15
}

/// One step of the wait for the Wi-Fi to join a network by itself.
pub enum WaitStep {
    /// Joined this network: say so and stop waiting.
    Joined(String),
    /// The device is idle after five seconds or more: stop waiting.
    Idle,
    /// Wait a second more.
    Wait,
}

/// Whether a device state code means the device is idle (neither preparing
/// nor holding a connection): below 30 or above 100.
pub open spec fn device_idle(state: u32) -> bool {
    state < 30 || state > 100
}

/// One step of the wait after `attempts` seconds, given the active network,
/// if any, and the device's state code (0 when it could not be read).
pub fn autoconnect_step(attempts: u32, active: Option<String>, device_state: u32) -> (s: WaitStep)
    ensures
        match active {
            Some(n) => s == WaitStep::Joined(n),
            None => if device_idle(device_state) && attempts >= 5 {
                s is Idle
            } else {
                s is Wait
            },
        },
{
    match active {
        Some(n) => WaitStep::Joined(n),
        None => {
            if (device_state < 30 || device_state > 100) && attempts >= 5 {
                WaitStep::Idle
            } else {
                WaitStep::Wait
            }
        },
    }
}

/// The notice when the Wi-Fi joined a network by itself.
pub fn joined_notice(ssid: &str) -> (e: PanelEvent)
    ensures
        e matches PanelEvent::Notify(m) && m@ == "Connected to "@ + ssid@,
{
    let mut m = owned("Connected to ");
    push_str(&mut m, ssid);
    PanelEvent::Notify(m)
}

/// After the wait: scan when no network was joined; otherwise check, two
/// seconds later, for a login portal on the network joined.
pub enum AfterWait {
    Scan,
    CheckPortal(String),
}

/// What follows the wait (see [`AfterWait`]).
pub fn after_autoconnect_wait(joined: Option<String>) -> (a: AfterWait)
    ensures
        match joined {
            Some(n) => a == AfterWait::CheckPortal(n),
            None => a is Scan,
        },
{
    match joined {
        Some(n) => AfterWait::CheckPortal(n),
        None => AfterWait::Scan,
    }
}

/// The connectivity code of a network behind a login portal.
pub open spec fn portal_code() -> u32 {
    2
}

/// The event after the connectivity check on `ssid`: a login portal is
/// reported when the check answered the portal code.
pub fn portal_check(ssid: String, connectivity: Option<u32>) -> (e: Option<PanelEvent>)
    ensures
        connectivity == Some(portal_code()) ==> e == Some(PanelEvent::CaptivePortal(ssid)),
        connectivity != Some(portal_code()) ==> e is None,
{
    match connectivity {
        Some(c) => if c == 2 {
            Some(PanelEvent::CaptivePortal(ssid))
        } else {
            None
        },
        None => None,
    }
}

} // verus!
