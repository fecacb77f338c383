use orbit::audio::parse_sinks;
use orbit::connection::{
    find_saved_connection, is_virtual_connection_id, select_active_ssid, wifi_profile_for,
    with_autoconnect,
    ActiveConnection, SettingValue,
};
use orbit::dns::{dns_summary, identify_dns_provider, ip_network_prefix, isp_label, public_ip_label};
use orbit::network::{saved_networks, ConnectionSettings};
use orbit::qr::{
    detect_vpn_type, display_id, import_command, import_file, imported_connection_name,
    list_connections_command, wireguard_interface, wireguard_slot_step, SlotStep, VpnKind,
};
use orbit::qr::scan_camera_frame;
use orbit::panel::network_is_listed;
use orbit::scan::{access_point_from_raw, RawAccessPoint};
use orbit::vpn::{install_paths, status_command, ExternalVpn};
use orbit::vpn::{vpn_profiles, vpn_switch, ExternalVpnState, ToolRun, VpnSwitch};
use orbit::wired::{
    connection_speed_text, ipv6_nameserver_candidates, network_details, wired_profile_of,
    ActiveDetails, ActiveWired, DeviceData, Ip4Data, Ip6Data, WiredDevice,
};

fn conn(path: &str, id: Option<&str>, kind: &str, auto: Option<bool>, ssid: Option<&[u8]>) -> ConnectionSettings {
    ConnectionSettings {
        path: path.to_string(),
        id: id.map(|s| s.to_string()),
        conn_type: Some(kind.to_string()),
        autoconnect: auto,
        interface_name: None,
        wireless_ssid: ssid.map(|b| b.to_vec()),
    }
}

fn scanned_ssid(bytes: &[u8]) -> String {
    let raw = RawAccessPoint {
        device_path: "/d/1".to_string(),
        path: "/ap/1".to_string(),
        ssid_bytes: Some(bytes.to_vec()),
        strength: Some(50),
        flags: None,
        wpa_flags: None,
        rsn_flags: None,
    };
    access_point_from_raw(&raw, &None).expect("a named network").ssid
}

#[test]
fn lenient_decoding_and_lowercase() {
    assert_eq!(scanned_ssid(b"caf\xc3\xa9"), "café");
    assert_eq!(scanned_ssid(b"a\xffb"), "a\u{fffd}b");
    let raw = RawAccessPoint {
        device_path: "/d/1".to_string(),
        path: "/ap/2".to_string(),
        ssid_bytes: Some("HeLLo ÉTÉ".as_bytes().to_vec()),
        strength: Some(50),
        flags: None,
        wpa_flags: None,
        rsn_flags: None,
    };
    let ap = access_point_from_raw(&raw, &None).unwrap();
    assert!(network_is_listed(&ap, "été"));
    assert!(network_is_listed(&ap, "hello"));
    assert!(!network_is_listed(&ap, "HELLO"));
    assert!(!network_is_listed(&ap, "ete"));
}

#[test]
fn pactl_listing_is_read_into_sinks() {
    let listing = "Sink #47\n\tState: RUNNING\n\tName: alsa_output.pci-0000_00_1f.3.analog-stereo\n\tDescription: Built-in Audio Analog Stereo\n\tMute: no\n\tVolume: front-left: 39321 /  60% / -13.31 dB,   front-right: 39321 /  60% / -13.31 dB\nSink #52\n\tName: bluez_output.AA_BB\n\tMute: yes\n";
    let sinks = parse_sinks(listing);
    assert_eq!(sinks.len(), 2);
    assert_eq!(sinks[0].id, "47");
    assert_eq!(sinks[0].name, "Built-in Audio Analog Stereo");
    assert_eq!(sinks[0].volume_text.as_deref(), Some("60"));
    assert!(!sinks[0].is_muted);
    assert_eq!(sinks[1].id, "52");
    assert_eq!(sinks[1].name, "bluez_output.AA_BB");
    assert_eq!(sinks[1].volume_text.as_deref(), Some("60"));
    assert!(sinks[1].is_muted);
}

#[test]
fn sink_names_without_description_are_cleaned() {
    let sinks = parse_sinks("Sink #1\nName: alsa_output.usb-Focusrite-00.analog-stereo\n");
    assert_eq!(sinks[0].name, "usb Focusrite 00");
    assert!(parse_sinks("nothing here").is_empty());
}

#[test]
fn dns_providers_and_summary() {
    assert_eq!(identify_dns_provider("1.1.1.1", "").provider, "Cloudflare");
    assert!(identify_dns_provider("1.1.1.1", "").is_private);
    assert_eq!(identify_dns_provider("8.8.4.4", "").provider, "Google");
    assert_eq!(identify_dns_provider("2620:fe::fe", "").provider, "Quad9");
    assert_eq!(identify_dns_provider("208.67.222.222", "").provider, "OpenDNS");
    assert_eq!(identify_dns_provider("94.140.14.14", "").provider, "AdGuard");
    assert_eq!(identify_dns_provider("203.0.113.1", "203.0.113").provider, "ISP / Router");
    assert_eq!(identify_dns_provider("10.0.0.1", "203.0.113").provider, "ISP / Router");
    assert_eq!(identify_dns_provider("192.168.1.1", "203.0.113").provider, "ISP / Router");
    assert_eq!(identify_dns_provider("172.16.0.1", "").provider, "ISP / Router");
    assert_eq!(identify_dns_provider("172.31.255.1", "").provider, "ISP / Router");
    assert_eq!(identify_dns_provider("172.32.0.1", "").provider, "Unknown");
    assert_eq!(identify_dns_provider("172.1.0.1", "").provider, "Unknown");
    assert_eq!(identify_dns_provider("fd00::1", "").provider, "ISP / Router");
    assert_eq!(identify_dns_provider("fe80::1", "").provider, "ISP / Router");
    assert_eq!(identify_dns_provider("::1", "").provider, "ISP / Router");
    assert_eq!(identify_dns_provider("198.51.100.9", "203.0.113").provider, "Unknown");
    let (_, s) = dns_summary(&vec!["192.168.1.1".to_string()], "203.0.113.7");
    assert_eq!(s, "ISP / Router");
    assert_eq!(ip_network_prefix("203.0.113.7"), "203.0.113");
    let (_, s) = dns_summary(&vec![], "1.2.3.4");
    assert_eq!(s, "System Default");
    let (infos, s) = dns_summary(&vec!["1.1.1.1".to_string(), "1.0.0.1".to_string()], "1.2.3.4");
    assert_eq!(infos.len(), 2);
    assert_eq!(s, "Cloudflare (Private)");
    let (_, s) = dns_summary(&vec!["8.8.8.8".to_string(), "1.1.1.1".to_string(), "8.8.4.4".to_string()], "1.2.3.4");
    assert_eq!(s, "Mixed (Google + Cloudflare)");
    assert_eq!(isp_label("Mullvad", true), "Mullvad (Secure)");
    assert_eq!(public_ip_label("1.2.3.4"), "IP: 1.2.3.4");
}

#[test]
fn stored_profile_lookup() {
    let conns = vec![
        conn("/s/1", Some("Office"), "802-11-wireless", None, Some(b"Office")),
        conn("/s/2", Some("Home "), "802-11-wireless", None, Some(b"")),
        conn("/s/3", Some("Other"), "802-11-wireless", None, Some(b"Caf\xc3\xa9")),
    ];
    assert_eq!(find_saved_connection(&conns, "Office"), Some("/s/1".to_string()));
    assert_eq!(find_saved_connection(&conns, "Home"), Some("/s/2".to_string()));
    assert_eq!(find_saved_connection(&conns, "Café"), Some("/s/3".to_string()));
    assert_eq!(find_saved_connection(&conns, "Nowhere"), None);
}

#[test]
fn active_network_skips_virtual_links() {
    let a = |t: Option<&str>, id: Option<&str>| ActiveConnection {
        conn_type: t.map(|s| s.to_string()),
        id: id.map(|s| s.to_string()),
    };
    let active = vec![
        a(Some("bridge"), Some("br0")),
        a(Some("802-3-ethernet"), Some("docker0")),
        a(Some("802-11-wireless"), None),
        a(None, Some("Home")),
        a(Some("802-11-wireless"), Some("Office")),
    ];
    assert_eq!(select_active_ssid(&active), Some("Home".to_string()));
    assert!(is_virtual_connection_id("VirBr0"));
    assert!(!is_virtual_connection_id("Home"));
    assert_eq!(select_active_ssid(&vec![a(Some("vpn"), Some("Work"))]), None);
}

#[test]
fn new_profile_carries_a_fresh_uuid() {
    let g1 = wifi_profile_for("Cafe", Some("pw"), false);
    let g2 = wifi_profile_for("Cafe", Some("pw"), false);
    let uuid_of = |g: &Vec<orbit::connection::SettingGroup>| {
        let conn = g.iter().find(|s| s.name == "connection").unwrap();
        match &conn.settings.iter().find(|s| s.key == "uuid").unwrap().value {
            SettingValue::Text(t) => t.clone(),
            _ => panic!("uuid must be text"),
        }
    };
    let u1 = uuid_of(&g1);
    let u2 = uuid_of(&g2);
    assert_eq!(u1.len(), 36);
    assert_eq!(u1.chars().nth(14), Some('4'));
    for (i, c) in u1.chars().enumerate() {
        if [8, 13, 18, 23].contains(&i) {
            assert_eq!(c, '-');
        } else {
            assert!(c.is_ascii_digit() || ('a'..='f').contains(&c));
        }
    }
    assert!(['8', '9', 'a', 'b'].contains(&u1.chars().nth(19).unwrap()));
    assert_ne!(u1, u2);
    assert!(g1.iter().any(|s| s.name == "802-11-wireless-security"));
    let open = wifi_profile_for("Cafe", None, true);
    assert!(!open.iter().any(|s| s.name == "802-11-wireless-security"));
}

#[test]
fn saved_networks_active_first_then_by_name() {
    let conns = vec![
        conn("/s/1", Some("Zeta"), "802-11-wireless", Some(false), None),
        conn("/s/2", Some("Alpha"), "802-11-wireless", None, None),
        conn("/s/3", Some("Wired 1"), "802-3-ethernet", None, None),
        conn("/s/4", Some("Mid"), "802-11-wireless", None, None),
    ];
    let list = saved_networks(&conns, &vec!["/s/4".to_string()]);
    let names: Vec<&str> = list.iter().map(|n| n.ssid.as_str()).collect();
    assert_eq!(names, vec!["Mid", "Alpha", "Zeta"]);
    assert!(list[0].is_active);
    assert!(!list[2].autoconnect);
    assert!(list[1].autoconnect);
}

#[test]
fn vpn_list_and_switching() {
    let conns = vec![
        conn("/s/1", Some("Work"), "vpn", None, None),
        conn("/s/2", None, "wireguard", None, None),
        conn("/s/3", Some("Home"), "802-11-wireless", None, None),
    ];
    let ext = ExternalVpnState {
        riseup: None,
        tailscale: Some(ToolRun::Ran { stdout: b"Tailscale is stopped.".to_vec(), success: false }),
        mullvad: Some(ToolRun::Ran { stdout: b"Connected to se-got-wg-001".to_vec(), success: true }),
    };
    let list = vpn_profiles(&conns, &vec!["/s/2".to_string()], &ext);
    let names: Vec<&str> = list.iter().map(|p| p.name.as_str()).collect();
    assert_eq!(names, vec!["Work", "Unknown VPN", "Tailscale", "Mullvad VPN"]);
    assert!(!list[0].is_active && list[1].is_active);
    assert!(!list[2].is_active && list[3].is_active);
    assert!(list[3].is_external);
    assert!(matches!(vpn_switch("/s/1", true), VpnSwitch::Managed));
    assert!(matches!(vpn_switch("external:unknown", true), VpnSwitch::Nothing));
    match vpn_switch("external:tailscale", false) {
        VpnSwitch::Run(c) => {
            assert_eq!(c.program, "tailscale");
            assert_eq!(c.args, vec!["down"]);
        }
        _ => panic!("expected a command"),
    }
    match vpn_switch("external:riseup", true) {
        VpnSwitch::Run(c) => assert!(!c.wait),
        _ => panic!("expected a command"),
    }
}

#[test]
fn wired_profile_of_a_device() {
    let saved = vec![ConnectionSettings {
        path: "/s/9".to_string(),
        id: Some("Office LAN".to_string()),
        conn_type: Some("802-3-ethernet".to_string()),
        autoconnect: Some(false),
        interface_name: Some("eth0".to_string()),
        wireless_ssid: None,
    }];
    let idle = WiredDevice {
        device_path: "/dev/1".to_string(),
        interface: Some("eth0".to_string()),
        carrier: Some(true),
        speed: Some(1000),
        hw_address: Some("AA:BB".to_string()),
        active: None,
    };
    let p = wired_profile_of(&idle, &saved);
    assert_eq!(p.name, "Office LAN");
    assert_eq!(p.connection_path, "/s/9");
    assert!(!p.is_active && !p.autoconnect && p.has_carrier);
    assert_eq!(p.speed, 1000);
    let busy = WiredDevice {
        active: Some(ActiveWired {
            id: Some("Wired connection 1".to_string()),
            connection: Some("/s/1".to_string()),
            ip4: Some(Ip4Data {
                addresses: vec!["10.0.0.2".to_string(), "10.0.0.3".to_string()],
                gateway: Some("10.0.0.1".to_string()),
                dns: vec!["10.0.0.1".to_string()],
            }),
            profile_autoconnect: None,
        }),
        ..idle
    };
    let q = wired_profile_of(&busy, &saved);
    assert_eq!(q.name, "Wired connection 1");
    assert_eq!(q.connection_path, "/s/1");
    assert_eq!(q.ip4_address, "10.0.0.3");
    assert_eq!(q.gateway, "10.0.0.1");
    assert!(q.is_active && q.autoconnect);
}

#[test]
fn network_details_from_active_connection() {
    let found = ActiveDetails {
        ip4: Some(Ip4Data { addresses: vec!["192.168.1.9".to_string()], gateway: None, dns: vec!["1.1.1.1".to_string()] }),
        ip6: Some(Ip6Data { addresses: vec![], dns: vec![] }),
        device: Some(DeviceData { hw_address: Some("11:22".to_string()), bitrate: Some(866_700) }),
    };
    let d = network_details("Home", &Some(found));
    assert!(d.is_connected);
    assert_eq!(d.ip4_address, "192.168.1.9");
    assert_eq!(d.gateway, "");
    assert_eq!(d.connection_speed, "866 Mb/s");
    let none = network_details("Home", &None);
    assert!(!none.is_connected && none.ip4_address.is_empty());
    assert_eq!(connection_speed_text(Some(0)), "");
    assert_eq!(connection_speed_text(None), "");
    let cands = ipv6_nameserver_candidates(&vec![vec![0u8; 16], vec![1u8; 4], vec![2u8; 16]]);
    assert_eq!(cands, vec![vec![0u8; 16], vec![2u8; 16]]);
}

#[test]
fn qr_import_pieces() {
    assert_eq!(detect_vpn_type("[Interface]\nPrivateKey = x"), Some(VpnKind::WireGuard));
    assert_eq!(detect_vpn_type("[Interface]\nAddress = x"), None);
    assert_eq!(detect_vpn_type("<ca>..."), Some(VpnKind::OpenVpn));
    assert_eq!(wireguard_interface(3), "wg3");
    assert!(matches!(wireguard_slot_step(0, &Some(b"NAME  wg0  wireguard".to_vec())), SlotStep::Next(1)));
    assert!(matches!(wireguard_slot_step(1, &Some(b"NAME  wg0  wireguard".to_vec())), SlotStep::Use(n) if n == "wg1"));
    assert!(matches!(wireguard_slot_step(255, &Some(b"wg255".to_vec())), SlotStep::TooMany));
    assert!(matches!(wireguard_slot_step(7, &None), SlotStep::Use(n) if n == "wg7"));
    assert_eq!(import_file(VpnKind::WireGuard, "wg1", 5), "wg1.conf");
    assert_eq!(import_file(VpnKind::OpenVpn, "", 42), "ovpn_42.ovpn");
    assert_eq!(
        imported_connection_name(b"Connection 'wg1' (abc) successfully added.", "wg1.conf"),
        "wg1"
    );
    assert_eq!(imported_connection_name(b"done", "ovpn_3.ovpn"), "ovpn_3");
    assert_eq!(display_id("Work", 17), "Work (17)");
    let c = import_command(VpnKind::WireGuard, "/tmp/x/wg1.conf");
    assert_eq!(c.args, vec!["connection", "import", "type", "wireguard", "file", "/tmp/x/wg1.conf"]);
    assert_eq!(list_connections_command().args, vec!["connection", "show"]);
}

#[test]
fn camera_frames_and_vpn_tools() {
    let wg = "[Interface]\nPrivateKey = abc\n[Peer]\nEndpoint = 1.2.3.4:51820\n".to_string();
    let codes = Some(vec![None, Some("hello".to_string()), Some(wg.clone())]);
    assert!(scan_camera_frame(4, &codes).is_none());
    assert!(scan_camera_frame(5, &None).is_none());
    assert!(scan_camera_frame(10, &Some(vec![Some("hello".to_string())])).is_none());
    let found = scan_camera_frame(5, &codes).expect("a VPN code");
    assert_eq!(found.0, wg);
    assert_eq!(install_paths(ExternalVpn::Mullvad), vec!["/usr/bin/mullvad", "/usr/local/bin/mullvad"]);
    let c = status_command(ExternalVpn::Riseup);
    assert_eq!(c.program, "ip");
    assert_eq!(c.args, vec!["addr", "show", "tun0"]);
    assert_eq!(status_command(ExternalVpn::Tailscale).args, vec!["status"]);
}

#[test]
fn autoconnect_rewrite_keeps_everything_else() {
    let g = |name: &str, es: &[(&str, i32)]| {
        (name.to_string(), es.iter().map(|(k, v)| (k.to_string(), *v)).collect::<Vec<_>>())
    };
    let groups = vec![
        g("802-11-wireless", &[("ssid", 1), ("autoconnect", 7)]),
        g("connection", &[("id", 2), ("autoconnect", 0), ("uuid", 3)]),
        g("ipv4", &[("method", 4)]),
    ];
    let out = with_autoconnect(groups.clone(), 1);
    assert_eq!(out[0], groups[0]);
    assert_eq!(out[1], g("connection", &[("id", 2), ("autoconnect", 1), ("uuid", 3)]));
    assert_eq!(out[2], groups[2]);
    let missing = vec![g("connection", &[("id", 2)])];
    assert_eq!(with_autoconnect(missing, 9), vec![g("connection", &[("id", 2), ("autoconnect", 9)])]);
    let none = vec![g("ipv4", &[("method", 4)])];
    assert_eq!(with_autoconnect(none.clone(), 9), none);
}
