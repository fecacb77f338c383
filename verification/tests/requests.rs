use orbit::actions::{
    click_steps, join_steps, leave_steps, password_steps, ClickStep,
    bluetooth_power_outcome, connect_plan, device_action_outcome, failure_event, hidden_join_device,
    hidden_join_outcome, join_outcome, name_servers, periodic_refresh_target, power_report,
    power_target, ConnectPlan, Failure, Radio, RefreshTarget,
};
use orbit::cli::{client_outcome, client_step, ClientKind, ClientStep, DaemonCommand};
use orbit::events::PanelEvent;
use orbit::nm::{
    devices_of_type, active_connection_for, is_object_path, vpn_off_connection, ActiveLink, join_request, join_wait_step,
    wired_devices, wireless_devices, ActiveEntry, DeviceEntry, JoinError, JoinRequest, JoinWait,
};
use orbit::network::ConnectionSettings;
use orbit::privacy::{ip_providers, public_ip_from_reply, read_ip_fields, unavailable_ip};
use orbit::scan::{AccessPoint, SecurityType};
use orbit::startup::{
    after_autoconnect_wait, autoconnect_step, autoconnect_wait_continues, joined_notice,
    portal_check, service_retry, AfterWait, Retry, WaitStep,
};
use orbit::wired::NetworkDetails;

fn ap(ssid: &str, security: SecurityType, connected: bool) -> AccessPoint {
    AccessPoint {
        ssid: ssid.to_string(),
        signal_strength: 50,
        security,
        is_connected: connected,
        device_path: "/org/freedesktop/NetworkManager/Devices/2".to_string(),
        path: "/org/freedesktop/NetworkManager/AccessPoint/7".to_string(),
    }
}

fn error_text(e: &PanelEvent) -> String {
    match e {
        PanelEvent::Error(m) => m.clone(),
        _ => panic!("expected an error"),
    }
}

fn notice_text(e: &PanelEvent) -> String {
    match e {
        PanelEvent::Notify(m) => m.clone(),
        _ => panic!("expected a notice"),
    }
}

#[test]
fn clicking_a_network() {
    match connect_plan(&ap("Home", SecurityType::WPA2, true), false) {
        ConnectPlan::Disconnect(s, p) => {
            assert_eq!(s, "Home");
            assert_eq!(p, "/org/freedesktop/NetworkManager/AccessPoint/7");
        }
        _ => panic!("expected disconnect"),
    }
    assert!(matches!(connect_plan(&ap("Cafe", SecurityType::Open, false), false), ConnectPlan::Join(_, _)));
    assert!(matches!(connect_plan(&ap("Work", SecurityType::WPA3, false), true), ConnectPlan::Join(_, _)));
    match connect_plan(&ap("Work", SecurityType::WPA3, false), false) {
        ConnectPlan::AskPassword(s, d) => {
            assert_eq!(s, "Work");
            assert_eq!(d, "/org/freedesktop/NetworkManager/Devices/2");
        }
        _ => panic!("expected a password prompt"),
    }
}

#[test]
fn join_outcomes() {
    let ok = join_outcome("Home", &Ok(()));
    assert!(matches!(ok[0], PanelEvent::ConnectSuccess));
    assert_eq!(notice_text(&ok[1]), "Connected to Home");
    let err = join_outcome("Home", &Err("address error: Connection timeout".to_string()));
    assert_eq!(err.len(), 1);
    assert_eq!(error_text(&err[0]), "Connect failed: address error: Connection timeout");
    let hidden = hidden_join_outcome("Lab", &Ok(()));
    assert_eq!(notice_text(&hidden[1]), "Connecting to hidden network Lab...");
    let hidden_err = hidden_join_outcome("Lab", &Err("denied".to_string()));
    assert_eq!(error_text(&hidden_err[0]), "Hidden connect failed: denied");
}

#[test]
fn hidden_network_device_choice() {
    assert_eq!(hidden_join_device(&Ok(vec!["/dev/2".to_string(), "/dev/5".to_string()])).ok(), Some("/dev/2".to_string()));
    match hidden_join_device(&Ok(vec![])) {
        Err(e) => assert_eq!(error_text(&e), "No WiFi device found"),
        Ok(_) => panic!("expected an error"),
    }
    match hidden_join_device(&Err("no bus".to_string())) {
        Err(e) => assert_eq!(error_text(&e), "Failed to query WiFi devices: no bus"),
        Ok(_) => panic!("expected an error"),
    }
}

#[test]
fn power_switch_targets_and_outcomes() {
    assert_eq!(power_target("wifi"), Some(Radio::Wifi));
    assert_eq!(power_target("saved"), Some(Radio::Wifi));
    assert_eq!(power_target("bluetooth"), Some(Radio::Bluetooth));
    assert_eq!(power_target("vpn"), None);
    let ok = bluetooth_power_outcome(true, &Ok(()), None);
    assert!(matches!(ok[..], [PanelEvent::BtPowerState(true)]));
    let failed = bluetooth_power_outcome(true, &Err("rfkill".to_string()), Some(false));
    assert_eq!(error_text(&failed[0]), "Failed to toggle Bluetooth: rfkill");
    assert!(matches!(failed[1], PanelEvent::BtPowerState(false)));
    assert!(power_report(Radio::Wifi, true, true).is_none());
    assert!(matches!(power_report(Radio::Bluetooth, false, false), Some(PanelEvent::BtPowerState(false))));
}

#[test]
fn periodic_refresh_follows_visible_tab() {
    let wifi = Some("wifi".to_string());
    assert_eq!(periodic_refresh_target(true, "wifi", &wifi), Some(RefreshTarget::AccessPoints));
    assert_eq!(periodic_refresh_target(false, "wifi", &wifi), None);
    assert_eq!(periodic_refresh_target(true, "bluetooth", &wifi), None);
    assert_eq!(periodic_refresh_target(true, "bluetooth", &Some("bluetooth".to_string())), Some(RefreshTarget::Devices));
    assert_eq!(periodic_refresh_target(true, "saved", &Some("saved".to_string())), Some(RefreshTarget::SavedNetworks));
    assert_eq!(periodic_refresh_target(true, "vpn", &Some("vpn".to_string())), None);
}

#[test]
fn failure_messages() {
    assert_eq!(error_text(&failure_event(Failure::VpnAction, "x")), "VPN Action failed: x");
    assert_eq!(error_text(&failure_event(Failure::WiredAutoconnect, "y")), "Failed to set autoconnect: y");
    let ev = device_action_outcome(true, &Ok(()));
    assert!(matches!(ev[0], PanelEvent::BtActionComplete));
    assert_eq!(notice_text(&ev[1]), "Device forgotten");
    let ev = device_action_outcome(false, &Err("gone".to_string()));
    assert_eq!(error_text(&ev[1]), "Bluetooth action failed: gone");
    let ev = device_action_outcome(false, &Ok(()));
    assert_eq!(ev.len(), 1);
}

#[test]
fn name_servers_ipv4_first() {
    let d = NetworkDetails {
        ipv4_dns: vec!["1.1.1.1".to_string()],
        ipv6_dns: vec!["2606:4700::1111".to_string(), "fe80::1".to_string()],
        ..Default::default()
    };
    assert_eq!(name_servers(&d), vec!["1.1.1.1", "2606:4700::1111", "fe80::1"]);
}

#[test]
fn startup_retries_and_wait() {
    assert_eq!(service_retry(0, true), Retry::Done);
    assert_eq!(service_retry(3, false), Retry::WaitAndRetry);
    assert_eq!(service_retry(4, false), Retry::GiveUp);
    assert!(autoconnect_wait_continues(14));
    assert!(!autoconnect_wait_continues(15));
    assert!(matches!(autoconnect_step(3, Some("Home".to_string()), 0), WaitStep::Joined(n) if n == "Home"));
    assert!(matches!(autoconnect_step(4, None, 20), WaitStep::Wait));
    assert!(matches!(autoconnect_step(5, None, 20), WaitStep::Idle));
    assert!(matches!(autoconnect_step(9, None, 50), WaitStep::Wait));
    assert!(matches!(autoconnect_step(9, None, 101), WaitStep::Idle));
    assert_eq!(notice_text(&joined_notice("Home")), "Connected to Home");
    assert!(matches!(after_autoconnect_wait(None), AfterWait::Scan));
    assert!(matches!(portal_check("Hotel".to_string(), Some(2)), Some(PanelEvent::CaptivePortal(s)) if s == "Hotel"));
    assert!(portal_check("Hotel".to_string(), Some(4)).is_none());
    assert!(portal_check("Hotel".to_string(), None).is_none());
}

#[test]
fn client_requests() {
    match client_step(ClientKind::Toggle, Some("top-left".to_string()), None, true) {
        ClientStep::Send(DaemonCommand::Toggle(Some(p), None)) => assert_eq!(p, "top-left"),
        _ => panic!("expected a toggle"),
    }
    match client_step(ClientKind::Toggle, None, None, false) {
        ClientStep::Fail(m) => assert_eq!(m, "Daemon is not running. Start it with: orbit daemon"),
        _ => panic!("expected failure"),
    }
    match client_step(ClientKind::Hide, None, None, false) {
        ClientStep::Skip(m) => assert_eq!(m, "Daemon not running, nothing to hide."),
        _ => panic!("expected a skip"),
    }
    assert_eq!(client_outcome(ClientKind::Show, Ok("OK".to_string())), Ok("Show triggered: OK".to_string()));
    assert_eq!(
        client_outcome(ClientKind::ReloadConfig, Err("refused".to_string())),
        Err("Failed to trigger config reload: refused".to_string())
    );
}

fn closes_path(path: &str) -> bool {
    let active = vec![ActiveEntry { path: path.to_string(), id: Some("Home".to_string()) }];
    active_connection_for(&active, "Home").is_some()
}

#[test]
fn object_paths() {
    assert!(closes_path("/"));
    assert!(closes_path("/org/freedesktop/NetworkManager/Devices/2"));
    assert!(closes_path("/a_b/C9"));
    assert!(!closes_path(""));
    assert!(!closes_path("org"));
    assert!(!closes_path("/double//slash"));
    assert!(!closes_path("/trailing/"));
    assert!(!closes_path("/has.dot"));
    assert!(!closes_path("/caf\u{e9}"));
}

#[test]
fn device_types() {
    let devs = vec![
        DeviceEntry { path: "/d/1".to_string(), device_type: 1 },
        DeviceEntry { path: "/d/2".to_string(), device_type: 2 },
        DeviceEntry { path: "/d/3".to_string(), device_type: 2 },
        DeviceEntry { path: "/d/4".to_string(), device_type: 0 },
    ];
    assert_eq!(wireless_devices(&devs), vec!["/d/2", "/d/3"]);
    assert_eq!(wired_devices(&devs), vec!["/d/1"]);
    assert_eq!(devices_of_type(&devs, 0), vec!["/d/4"]);
}

fn saved(path: &str, id: &str) -> ConnectionSettings {
    ConnectionSettings {
        path: path.to_string(),
        id: Some(id.to_string()),
        conn_type: Some("802-11-wireless".to_string()),
        autoconnect: Some(true),
        interface_name: None,
        wireless_ssid: Some(id.as_bytes().to_vec()),
    }
}

#[test]
fn joining_uses_stored_profile_or_a_new_one() {
    let conns = vec![saved("/s/1", "Office"), saved("/s/2", "Home")];
    match join_request("/dev/2", &conns, "Home", None) {
        Ok(JoinRequest::Activate(p)) => assert_eq!(p, "/s/2"),
        _ => panic!("expected the stored profile"),
    }
    match join_request("/dev/2", &conns, "Cafe", Some("secret")) {
        Ok(JoinRequest::AddAndActivate(groups)) => assert!(groups.len() >= 4),
        _ => panic!("expected a new profile"),
    }
    assert!(matches!(join_request("dev 2", &conns, "Home", None), Err(JoinError::InvalidDevicePath)));
}

#[test]
fn join_wait_times_out_after_thirty_checks() {
    assert_eq!(join_wait_step(0, &Some("Home".to_string()), "Home"), JoinWait::Joined);
    assert_eq!(join_wait_step(0, &Some("Other".to_string()), "Home"), JoinWait::Wait);
    assert_eq!(join_wait_step(28, &None, "Home"), JoinWait::Wait);
    assert_eq!(join_wait_step(29, &None, "Home"), JoinWait::TimedOut);
}

#[test]
fn leaving_a_network_closes_its_connection() {
    let active = vec![
        ActiveEntry { path: "bad path".to_string(), id: Some("Home".to_string()) },
        ActiveEntry { path: "/a/1".to_string(), id: Some("Wired".to_string()) },
        ActiveEntry { path: "/a/2".to_string(), id: Some("Home".to_string()) },
    ];
    assert_eq!(active_connection_for(&active, "Home"), Some("/a/2".to_string()));
    assert_eq!(active_connection_for(&active, "Cafe"), None);
    let unread = vec![ActiveEntry { path: "/a/3".to_string(), id: None }];
    assert_eq!(active_connection_for(&unread, ""), Some("/a/3".to_string()));
}

#[test]
fn public_address_from_service_answers() {
    let p = public_ip_from_reply(r#"{"ip": "203.0.113.7", "org": "Mullvad VPN AB"}"#, "https://ifconfig.me/all.json", false).unwrap();
    assert_eq!(p.ip, "203.0.113.7");
    assert_eq!(p.isp, "Mullvad VPN AB");
    assert!(p.is_secure);
    let q = public_ip_from_reply(r#"{"query": "198.51.100.2", "isp": "Example Telecom"}"#, "x", false).unwrap();
    assert_eq!(q.ip, "198.51.100.2");
    assert_eq!(q.isp, "Example Telecom");
    assert!(!q.is_secure);
    let r = public_ip_from_reply(r#"{"ip": 5}"#, "https://vpn.example", true).unwrap();
    assert_eq!(r.ip, "Unknown");
    assert_eq!(r.isp, "Direct Connection");
    assert!(r.is_secure);
    let h = public_ip_from_reply(r#"{"ip_addr": "192.0.2.1", "asn_org": "Big HOSTING Ltd"}"#, "x", false).unwrap();
    assert_eq!(h.ip, "192.0.2.1");
    assert!(h.is_secure);
    assert!(public_ip_from_reply("<html>blocked</html>", "x", false).is_none());
    assert!(read_ip_fields("[1, 2]").is_some());
    assert_eq!(ip_providers().len(), 3);
    let u = unavailable_ip();
    assert_eq!((u.ip.as_str(), u.isp.as_str(), u.is_secure), ("Unavailable", "Check connection", false));
}

#[test]
fn connect_click_reports_before_joining_and_rescans_after() {
    let open = ap("Cafe", SecurityType::Open, false);
    let steps = click_steps(&open, false);
    assert_eq!(steps.len(), 2);
    assert!(matches!(&steps[0], ClickStep::Report(PanelEvent::ConnectStarted(n)) if n == "Cafe"));
    assert!(matches!(&steps[1], ClickStep::Join(n, None, d) if n == "Cafe" && d == "/org/freedesktop/NetworkManager/Devices/2"));
    let locked = ap("Work", SecurityType::WPA2, false);
    assert!(matches!(&click_steps(&locked, true)[0], ClickStep::Report(PanelEvent::ConnectStarted(_))));
    let ask = click_steps(&locked, false);
    assert_eq!(ask.len(), 1);
    assert!(matches!(&ask[0], ClickStep::AskPassword(n, _) if n == "Work"));
    let typed = password_steps("Work", Some("secret".to_string()), "/dev/2");
    assert!(matches!(&typed[0], ClickStep::Report(PanelEvent::ConnectStarted(n)) if n == "Work"));
    assert!(matches!(&typed[1], ClickStep::Join(n, Some(p), d) if n == "Work" && p == "secret" && d == "/dev/2"));
    assert!(password_steps("Work", None, "/dev/2").is_empty());
    let done = join_steps("Work", &Ok(()));
    assert_eq!(done.len(), 4);
    assert!(matches!(done[0], ClickStep::Pause(1000)));
    assert!(matches!(done[1], ClickStep::Report(PanelEvent::ConnectSuccess)));
    assert!(matches!(&done[2], ClickStep::Report(PanelEvent::Notify(m)) if m == "Connected to Work"));
    assert!(matches!(done[3], ClickStep::Rescan));
    let failed = join_steps("Work", &Err("timeout".to_string()));
    assert_eq!(failed.len(), 1);
    assert!(matches!(&failed[0], ClickStep::Report(PanelEvent::Error(m)) if m == "Connect failed: timeout"));
    let home = ap("Home", SecurityType::WPA2, true);
    let leave = click_steps(&home, true);
    assert!(matches!(&leave[0], ClickStep::Report(PanelEvent::DisconnectStarted(n)) if n == "Home"));
    assert!(matches!(&leave[1], ClickStep::Leave(n, p) if n == "Home" && p == "/org/freedesktop/NetworkManager/AccessPoint/7"));
    let after = leave_steps();
    assert!(matches!(after[0], ClickStep::Pause(1000)));
    assert!(matches!(after[1], ClickStep::Report(PanelEvent::ConnectSuccess)));
    assert!(matches!(after[2], ClickStep::Pause(500)));
    assert!(matches!(after[3], ClickStep::Rescan));
}

#[test]
fn vpn_switch_off_target() {
    let links = vec![
        ActiveLink { path: "/a/1".to_string(), connection: Some("/s/9".to_string()) },
        ActiveLink { path: "/a/2".to_string(), connection: None },
        ActiveLink { path: "/a/3".to_string(), connection: Some("/s/4".to_string()) },
    ];
    assert_eq!(vpn_off_connection(&links, "/s/4"), Ok(Some("/a/3".to_string())));
    assert_eq!(vpn_off_connection(&links, "/s/5"), Ok(None));
    let bad = vec![
        ActiveLink { path: "not a path".to_string(), connection: Some("/s/4".to_string()) },
        ActiveLink { path: "/a/3".to_string(), connection: Some("/s/4".to_string()) },
    ];
    assert_eq!(vpn_off_connection(&bad, "/s/4"), Err(()));
}

#[test]
fn object_path_check_agrees_with_zbus() {
    let samples = [
        "/", "", "org", "/a", "/a/b", "/a//b", "/a/", "//", "/a_b/C9", "/has.dot", "/caf\u{e9}",
        "/org/freedesktop/NetworkManager/Devices/2", "/-", "/a b", "a/b", "/9/_/Z",
    ];
    for p in samples {
        assert_eq!(is_object_path(p), zbus::zvariant::ObjectPath::try_from(p).is_ok(), "{:?}", p);
    }
}
