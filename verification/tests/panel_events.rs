use orbit::cli::{run_daemon, run_gui, DaemonCommand, StartMode};
use orbit::devices::{BluetoothDevice, DeviceAction};
use orbit::actions::Radio;
use orbit::events::{step, PanelAction, PanelEvent, PanelState};
use orbit::scan::{AccessPoint, SecurityType};
use orbit::startup::initial_state;

fn state(visible: bool, now: u64) -> PanelState {
    let mode = if visible { run_gui() } else { run_daemon(false).unwrap() };
    initial_state(mode, now)
}

fn is(a: &PanelAction, name: &str) -> bool {
    let n = match a {
        PanelAction::ShowNetworks => "ShowNetworks",
        PanelAction::ShowDevices => "ShowDevices",
        PanelAction::ShowWindow => "ShowWindow",
        PanelAction::HideWindow => "HideWindow",
        PanelAction::FullRefresh => "FullRefresh",
        PanelAction::HidePasswordDialog => "HidePasswordDialog",
        PanelAction::CancelAgent => "CancelAgent",
        PanelAction::ReloadTheme => "ReloadTheme",
        PanelAction::ReloadConfig => "ReloadConfig",
        PanelAction::Quit => "Quit",
        _ => "other",
    };
    n == name
}

#[test]
fn start_modes() {
    assert_eq!(run_gui(), StartMode { daemon: false, show_window: true });
    assert_eq!(run_daemon(false), Ok(StartMode { daemon: true, show_window: false }));
    assert_eq!(run_daemon(true), Err("Daemon is already running".to_string()));
    let s = state(false, 100);
    assert!(!s.visible);
    assert_eq!(s.page.as_deref(), Some("wifi"));
}

#[test]
fn show_refreshes_only_after_cooldown() {
    let mut s = state(false, 1_000);
    let acts = step(&mut s, PanelEvent::Daemon(DaemonCommand::Show), 2_500);
    assert_eq!(acts.len(), 1);
    assert!(is(&acts[0], "ShowWindow"));
    assert!(s.visible);
    assert_eq!(s.last_refresh_ms, 1_000);
    let acts = step(&mut s, PanelEvent::Daemon(DaemonCommand::Show), 3_001);
    assert_eq!(acts.len(), 2);
    assert!(is(&acts[1], "FullRefresh"));
    assert_eq!(s.last_refresh_ms, 3_001);
    let acts = step(&mut s, PanelEvent::Daemon(DaemonCommand::Show), 5_001);
    assert_eq!(acts.len(), 1);
}

#[test]
fn toggle_hides_or_shows_with_position_and_tab() {
    let mut s = state(false, 0);
    let acts = step(
        &mut s,
        PanelEvent::Daemon(DaemonCommand::Toggle(Some("bottom-left".to_string()), Some("vpn".to_string()))),
        10_000,
    );
    assert_eq!(acts.len(), 4);
    assert!(matches!(&acts[0], PanelAction::SetPosition(p) if p == "bottom-left"));
    assert!(matches!(&acts[1], PanelAction::SetTab(t) if t == "vpn"));
    assert!(is(&acts[2], "ShowWindow"));
    assert!(is(&acts[3], "FullRefresh"));
    assert!(s.visible);
    assert_eq!(s.page.as_deref(), Some("vpn"));
    let acts = step(&mut s, PanelEvent::Daemon(DaemonCommand::Toggle(None, None)), 10_500);
    assert_eq!(acts.len(), 1);
    assert!(is(&acts[0], "HideWindow"));
    assert!(!s.visible);
}

#[test]
fn power_reports_sync_switch_on_matching_page() {
    let mut s = state(true, 0);
    let acts = step(&mut s, PanelEvent::WifiPowerState(true), 0);
    assert!(matches!(acts[..], [PanelAction::SetPowerSwitch(true)]));
    let acts = step(&mut s, PanelEvent::BtPowerState(true), 0);
    assert!(acts.is_empty());
    s.page = Some("bluetooth".to_string());
    let acts = step(&mut s, PanelEvent::BtPowerState(true), 0);
    assert!(matches!(acts[..], [PanelAction::SetPowerSwitch(true), PanelAction::RefreshDevicesAfter(1500)]));
    s.switching_power = true;
    let acts = step(&mut s, PanelEvent::BtPowerState(false), 0);
    assert!(acts.is_empty());
}

#[test]
fn connection_progress_is_tracked_and_cleared() {
    let mut s = state(true, 0);
    step(&mut s, PanelEvent::ConnectStarted("Home".to_string()), 0);
    assert_eq!(s.wifi.connecting.as_deref(), Some("Home"));
    let acts = step(&mut s, PanelEvent::Error("Secrets were required: bad-password".to_string()), 0);
    assert!(s.wifi.connecting.is_none());
    assert!(matches!(&acts[1], PanelAction::ShowError(m) if m == "Incorrect password. Please try again."));
    step(&mut s, PanelEvent::DisconnectStarted("Home".to_string()), 0);
    assert_eq!(s.wifi.disconnecting.as_deref(), Some("Home"));
    let acts = step(&mut s, PanelEvent::ConnectSuccess, 0);
    assert!(s.wifi.disconnecting.is_none());
    assert!(is(&acts[1], "HidePasswordDialog"));
    step(&mut s, PanelEvent::ConnectStarted("Cafe".to_string()), 0);
    let nets = vec![AccessPoint {
        ssid: "Cafe".to_string(),
        signal_strength: 40,
        security: SecurityType::Open,
        is_connected: true,
        device_path: "/d".to_string(),
        path: "/a".to_string(),
    }];
    step(&mut s, PanelEvent::WifiScanResult(nets), 0);
    assert!(s.wifi.connecting.is_none());
    assert_eq!(s.wifi.networks.len(), 1);
}

#[test]
fn hidden_network_password_is_optional() {
    let mut s = state(true, 0);
    let acts = step(&mut s, PanelEvent::ConnectHidden("Lab".to_string(), "".to_string()), 0);
    assert!(matches!(&acts[0], PanelAction::JoinHidden(n, None) if n == "Lab"));
    let acts = step(&mut s, PanelEvent::ConnectHidden("Lab".to_string(), "pw".to_string()), 0);
    assert!(matches!(&acts[0], PanelAction::JoinHidden(_, Some(p)) if p == "pw"));
}

#[test]
fn agent_prompts_name_the_device_and_show_the_window() {
    let mut s = state(false, 0);
    let devices = vec![BluetoothDevice {
        path: "/d/1".to_string(),
        name: "Buds".to_string(),
        device_type: None,
        is_connected: false,
        is_paired: false,
        battery_percentage: None,
        is_charging: false,
    }];
    step(&mut s, PanelEvent::BtActionStarted("/d/1".to_string(), DeviceAction::Pair), 0);
    assert_eq!(s.bluetooth.action, Some(DeviceAction::Pair));
    step(&mut s, PanelEvent::BtScanResult(devices), 0);
    assert!(s.bluetooth.action.is_none());
    let acts = step(&mut s, PanelEvent::BtConfirmRequest("/d/1".to_string(), 42), 0);
    assert!(matches!(&acts[0], PanelAction::ShowConfirmRequest(n, 42) if n == "Buds"));
    assert!(is(&acts[1], "ShowWindow"));
    assert!(s.visible);
    let acts = step(&mut s, PanelEvent::BtAuthRequest("/d/9".to_string()), 0);
    assert!(matches!(&acts[0], PanelAction::ShowConfirmRequest(n, 0) if n == "Unknown Device"));
}

#[test]
fn notifications_and_portal() {
    let mut s = state(true, 0);
    let acts = step(&mut s, PanelEvent::Notify("Connected to Home".to_string()), 0);
    match &acts[0] {
        PanelAction::Run(c) => {
            assert_eq!(c.program, "notify-send");
            assert_eq!(c.args, vec!["Orbit", "Connected to Home", "--app-name=Orbit", "-i", "network-wireless"]);
            assert!(!c.wait);
        }
        _ => panic!("expected a command"),
    }
    let acts = step(&mut s, PanelEvent::CaptivePortal("Airport".to_string()), 0);
    assert_eq!(acts.len(), 2);
    match (&acts[0], &acts[1]) {
        (PanelAction::Run(n), PanelAction::Run(o)) => {
            assert_eq!(n.args[1], "Captive portal detected on Airport — opening login page...");
            assert_eq!(o.program, "xdg-open");
            assert_eq!(o.args, vec!["http://neverssl.com"]);
        }
        _ => panic!("expected two commands"),
    }
}

#[test]
fn daemon_reload_and_quit() {
    let mut s = state(true, 0);
    assert!(is(&step(&mut s, PanelEvent::Daemon(DaemonCommand::ReloadTheme), 0)[0], "ReloadTheme"));
    assert!(is(&step(&mut s, PanelEvent::Daemon(DaemonCommand::ReloadConfig), 0)[0], "ReloadConfig"));
    assert!(is(&step(&mut s, PanelEvent::Daemon(DaemonCommand::Quit), 0)[0], "Quit"));
    assert!(is(&step(&mut s, PanelEvent::BtAgentCancel, 0)[0], "CancelAgent"));
    assert!(step(&mut s, PanelEvent::BtTrustComplete, 0).is_empty());
}

#[test]
fn power_switch_flip_holds_reports_until_settled() {
    let mut s = state(true, 0);
    assert_eq!(s.page.as_deref(), Some("wifi"));
    let acts = step(&mut s, PanelEvent::PowerSwitchFlipped(false), 10);
    assert_eq!(acts.len(), 2);
    assert!(matches!(acts[0], PanelAction::SwitchRadio(Radio::Wifi, false)));
    assert!(matches!(acts[1], PanelAction::SettlePowerSwitchAfter(2000)));
    assert!(s.switching_power);
    assert!(step(&mut s, PanelEvent::WifiPowerState(true), 20).is_empty());
    assert!(step(&mut s, PanelEvent::PowerSwitchSettled, 2_100).is_empty());
    assert!(!s.switching_power);
    let acts = step(&mut s, PanelEvent::WifiPowerState(false), 2_200);
    assert_eq!(acts.len(), 1);
    assert!(matches!(acts[0], PanelAction::SetPowerSwitch(false)));
    s.page = Some("bluetooth".to_string());
    let acts = step(&mut s, PanelEvent::PowerSwitchFlipped(true), 3_000);
    assert!(matches!(acts[0], PanelAction::SwitchRadio(Radio::Bluetooth, true)));
    s.page = Some("vpn".to_string());
    let acts = step(&mut s, PanelEvent::PowerSwitchFlipped(true), 4_000);
    assert_eq!(acts.len(), 1);
    assert!(matches!(acts[0], PanelAction::SettlePowerSwitchAfter(2000)));
}
