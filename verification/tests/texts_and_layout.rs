use orbit::audio::{default_sink_command, mute_command, mute_icon_name, selected_output, volume_command};
use orbit::dialogs::{
    agent_cancel, agent_confirm, key_response, parse_passkey, search_escape, AgentReply,
    AgentRequest, KeyResponse, Overlay, Overlays, PanelKey, SearchEscape,
};
use orbit::dns::join_texts;
use orbit::layout::{
    parse_revealer_transition, parse_stack_transition, position_anchors, power_switch_label,
    tab_of, wired_button_visible, Anchors, PanelTab, RevealerTransition, StackTransition,
};
use orbit::messages::{
    battery_status_label, battery_style, confirm_prompt, counts_as_uplink, network_detail_rows,
    passkey_display_prompt, password_prompt, pin_display_prompt, pin_request_prompt,
    sanitize_error_message, status_icons, vpn_interface_names, wired_button, wired_details,
    wired_icon_name, wired_status_text, WiredButton,
};
use orbit::qr::{decode_this_frame, file_stamp, find_vpn_payload, name_stamp, vpn_name_entry, VpnKind};
use orbit::text::push_padded_decimal;
use orbit::theme::{style_css_path, theme_path};
use orbit::vpn::{vpn_icon_name, vpn_row_status, vpn_row_title, VpnProfile};
use orbit::wired::{NetworkDetails, WiredProfile};

#[test]
fn friendly_errors() {
    assert_eq!(sanitize_error_message("Secrets: BAD-PASSWORD"), "Incorrect password. Please try again.");
    assert_eq!(sanitize_error_message("invalid-key given"), "Incorrect password. Please try again.");
    assert_eq!(sanitize_error_message("Operation Timeout"), "Connection timed out.");
    assert_eq!(sanitize_error_message("org.bluez.Error.InProgress"), "org.bluez.Error.InProgress");
    assert_eq!(sanitize_error_message("Operation already in progress"), "Device is busy. Please wait and try again.");
    assert_eq!(sanitize_error_message("Resource Busy"), "Device is busy. Please wait and try again.");
    assert_eq!(sanitize_error_message("adapter-not-powered"), "Bluetooth adapter is not powered on yet.");
    assert_eq!(
        sanitize_error_message("Soft blocked"),
        "Bluetooth is blocked by system (RFKill). Try unblocking it manually."
    );
    assert_eq!(sanitize_error_message("Something else"), "Something else");
}

#[test]
fn dialog_prompts() {
    assert_eq!(password_prompt("Home"), "Enter password for Home:");
    assert_eq!(pin_request_prompt("Buds"), "Enter PIN for Buds:");
    assert_eq!(confirm_prompt("Buds", 42), "Does Buds show passkey 000042?");
    assert_eq!(confirm_prompt("Buds", 1234567), "Does Buds show passkey 1234567?");
    assert_eq!(pin_display_prompt("Kbd", "0000"), "Pairing with Kbd. Enter this PIN on the device: 0000");
    assert_eq!(
        passkey_display_prompt("Kbd", 7),
        "Pairing with Kbd. Enter this passkey on the device: 000007"
    );
    let mut s = String::from("x");
    push_padded_decimal(&mut s, 5, 3);
    assert_eq!(s, "x005");
}

#[test]
fn details_rows_show_na_for_missing_values() {
    let d = NetworkDetails {
        ssid: "Home".to_string(),
        ip4_address: "192.168.1.20".to_string(),
        ipv6_dns: vec!["fe80::1".to_string()],
        ..Default::default()
    };
    let rows = network_detail_rows(&d);
    let values: Vec<&str> = rows.iter().map(|r| r.value.as_str()).collect();
    assert_eq!(values, vec!["Home", "192.168.1.20", "N/A", "N/A", "N/A", "fe80::1", "N/A", "N/A"]);
    assert_eq!(rows[7].label, "Speed");
    assert_eq!(rows[4].icon, "system-run-symbolic");
}

fn wired(active: bool, carrier: bool, conn: &str, ip: &str, mac: &str) -> WiredProfile {
    WiredProfile {
        name: "Wired".to_string(),
        device_name: "eth0".to_string(),
        device_path: "/dev/1".to_string(),
        connection_path: conn.to_string(),
        is_active: active,
        has_carrier: carrier,
        speed: 1000,
        mac_address: mac.to_string(),
        ip4_address: ip.to_string(),
        gateway: "192.168.1.1".to_string(),
        dns_servers: vec!["1.1.1.1".to_string(), "9.9.9.9".to_string()],
        autoconnect: true,
    }
}

#[test]
fn wired_rows() {
    let a = wired(true, true, "/s/1", "10.0.0.5", "AA:BB");
    assert_eq!(wired_status_text(&a), "Connected · 10.0.0.5 · 1000 Mb/s");
    assert_eq!(wired_status_text(&wired(true, true, "/s/1", "", "")), "Connected · 1000 Mb/s");
    assert_eq!(wired_status_text(&wired(false, true, "/s/1", "", "")), "Cable connected · Disconnected");
    assert_eq!(wired_status_text(&wired(false, false, "", "", "")), "No cable detected");
    assert_eq!(wired_icon_name(&a), "network-wired-symbolic");
    assert_eq!(wired_button(&a), WiredButton::Disconnect { device_path: "/dev/1".to_string() });
    assert_eq!(
        wired_button(&wired(false, true, "/s/1", "", "")),
        WiredButton::Connect { connection_path: "/s/1".to_string(), device_path: "/dev/1".to_string() }
    );
    assert_eq!(wired_button(&wired(true, true, "", "", "")), WiredButton::Absent);
    let det = wired_details(&a).unwrap();
    assert_eq!(det.mac_line.as_deref(), Some("MAC: AA:BB"));
    assert_eq!(det.gateway_line.as_deref(), Some("Gateway: 192.168.1.1"));
    assert_eq!(det.dns_line.as_deref(), Some("DNS: 1.1.1.1, 9.9.9.9"));
    assert_eq!(det.autoconnect_switch, Some(("/s/1".to_string(), true)));
    assert!(wired_details(&wired(false, false, "", "", "")).is_none());
    let idle = wired_details(&wired(false, true, "", "", "CC:DD")).unwrap();
    assert!(idle.gateway_line.is_none() && idle.dns_line.is_none() && idle.autoconnect_switch.is_none());
    let mut off = wired(false, true, "/s/2", "", "EE:FF");
    off.autoconnect = false;
    assert_eq!(wired_details(&off).unwrap().autoconnect_switch, Some(("/s/2".to_string(), false)));
}

#[test]
fn battery_and_status_line() {
    assert_eq!(battery_status_label(80, true), "Battery: AC Power");
    assert_eq!(battery_status_label(80, false), "Battery: 80%");
    assert_eq!(battery_style(80, true), "--bat-pct: 100%; --bat-color: #2ec27e;");
    assert_eq!(battery_style(15, false), "--bat-pct: 15%; --bat-color: #e01b24;");
    assert_eq!(battery_style(16, false), "--bat-pct: 16%; --bat-color: #3584e4;");
    assert_eq!(status_icons(true, true, Some((55, false))), "🔒 🌐 🔋 55%");
    assert_eq!(status_icons(false, false, None), "✈️");
    assert_eq!(status_icons(false, true, Some((130, true))), "🌐 🔌 100%");
    assert_eq!(status_icons(false, true, Some((-4, false))), "🌐 🪫 0%");
    assert_eq!(status_icons(false, true, Some((10, false))), "🌐 🪫 10%");
    assert_eq!(vpn_interface_names(), vec!["tun0", "wg0", "ppp0", "nordlynx"]);
    assert!(counts_as_uplink("eth0", "1\n"));
    assert!(!counts_as_uplink("lo", "1"));
    assert!(!counts_as_uplink("wg0", "1"));
    assert!(!counts_as_uplink("wlan0", "0\n"));
}

#[test]
fn window_positions() {
    let a = |t, b, l, r| Anchors { top: t, bottom: b, left: l, right: r };
    assert_eq!(position_anchors("top-left"), a(true, false, true, false));
    assert_eq!(position_anchors("top-center"), a(true, false, false, false));
    assert_eq!(position_anchors("center"), a(false, false, false, false));
    assert_eq!(position_anchors("center-right"), a(false, false, false, true));
    assert_eq!(position_anchors("bottom-center"), a(false, true, false, false));
    assert_eq!(position_anchors("bottom-right"), a(false, true, false, true));
    assert_eq!(position_anchors("somewhere"), a(true, false, false, true));
}

#[test]
fn transitions_by_name() {
    assert_eq!(parse_revealer_transition("SlideUp"), RevealerTransition::SlideUp);
    assert_eq!(parse_revealer_transition("fade"), RevealerTransition::Crossfade);
    assert_eq!(parse_revealer_transition("NONE"), RevealerTransition::Instant);
    assert_eq!(parse_revealer_transition("bounce"), RevealerTransition::SlideDown);
    assert_eq!(parse_stack_transition("slidehorizontal"), StackTransition::SlideLeftRight);
    assert_eq!(parse_stack_transition("SlideVertical"), StackTransition::SlideUpDown);
    assert_eq!(parse_stack_transition("fade"), StackTransition::SlideLeftRight);
}

#[test]
fn header_tabs() {
    assert_eq!(tab_of("saved"), Some(PanelTab::Wifi));
    assert_eq!(tab_of("bluetooth"), Some(PanelTab::Bluetooth));
    assert_eq!(tab_of("other"), None);
    assert_eq!(power_switch_label(PanelTab::Wifi).as_deref(), Some("WiFi"));
    assert_eq!(power_switch_label(PanelTab::Vpn), None);
    assert!(wired_button_visible(PanelTab::Wifi));
    assert!(!wired_button_visible(PanelTab::Bluetooth));
}

#[test]
fn escape_closes_overlays_in_order() {
    let none = Overlays { details: false, password: false, hidden: false, saved: false, agent: false, error: false, wired: false };
    assert_eq!(key_response(PanelKey::Escape, none), KeyResponse::HideWindow);
    let two = Overlays { error: true, saved: true, ..none };
    assert_eq!(key_response(PanelKey::Escape, two), KeyResponse::Close(Overlay::Saved));
    let agent = Overlays { agent: true, wired: true, ..none };
    assert_eq!(key_response(PanelKey::Escape, agent), KeyResponse::Close(Overlay::Agent));
    assert_eq!(key_response(PanelKey::Tab, two), KeyResponse::FocusNext);
    assert_eq!(key_response(PanelKey::BackTab, two), KeyResponse::FocusPrevious);
    assert_eq!(key_response(PanelKey::Other, two), KeyResponse::PassOn);
}

#[test]
fn pairing_dialog_answers() {
    assert_eq!(parse_passkey("123456"), Some(123456));
    assert_eq!(parse_passkey("+7"), Some(7));
    assert_eq!(parse_passkey("4294967295"), Some(4294967295));
    assert_eq!(parse_passkey("4294967296"), None);
    assert_eq!(parse_passkey(""), None);
    assert_eq!(parse_passkey("+"), None);
    assert_eq!(parse_passkey("-1"), None);
    assert_eq!(parse_passkey("12a"), None);
    for text in ["0", "000042", "99999999999", " 5", "+0010"] {
        assert_eq!(parse_passkey(text), text.parse::<u32>().ok());
    }
    assert!(matches!(agent_confirm(AgentRequest::Pin, "0000"), AgentReply::Pin(p) if p == "0000"));
    assert!(matches!(agent_confirm(AgentRequest::Passkey, "31"), AgentReply::Passkey(31)));
    assert!(matches!(agent_confirm(AgentRequest::Passkey, "x"), AgentReply::Silent));
    assert!(matches!(agent_confirm(AgentRequest::Confirm, ""), AgentReply::Confirmed(true)));
    assert!(matches!(agent_cancel(AgentRequest::Confirm), AgentReply::Confirmed(false)));
    assert!(matches!(agent_cancel(AgentRequest::Pin), AgentReply::Silent));
}

#[test]
fn audio_commands_and_selector() {
    let v = volume_command("alsa_output.pci", 35);
    assert_eq!(v.program, "pactl");
    assert_eq!(v.args, vec!["set-sink-volume", "alsa_output.pci", "35%"]);
    assert_eq!(mute_command("3", true).args, vec!["set-sink-mute", "3", "1"]);
    assert_eq!(mute_command("3", false).args, vec!["set-sink-mute", "3", "0"]);
    assert_eq!(default_sink_command("3").args, vec!["set-default-sink", "3"]);
    let ids = vec!["1".to_string(), "2".to_string(), "2".to_string()];
    assert_eq!(selected_output(&ids, &Some("2".to_string())), Some(2));
    assert_eq!(selected_output(&ids, &Some("9".to_string())), Some(0));
    assert_eq!(selected_output(&ids, &None), Some(0));
    assert_eq!(selected_output(&vec![], &None), None);
    assert_eq!(mute_icon_name(true), "audio-volume-muted-symbolic");
}

#[test]
fn qr_scanning_rules() {
    assert_eq!(file_stamp(Some(1_700_000_123_456)), 23_456);
    assert_eq!(file_stamp(None), 0);
    assert_eq!(name_stamp(Some(1_700_000_123_456)), 456);
    assert!(decode_this_frame(5));
    assert!(!decode_this_frame(6));
    let decoded = vec![None, Some("hello".to_string()), Some("client\nremote vpn.example 1194".to_string())];
    let (payload, kind) = find_vpn_payload(&decoded).unwrap();
    assert_eq!(kind, VpnKind::OpenVpn);
    assert!(payload.starts_with("client"));
    assert!(find_vpn_payload(&vec![Some("hello".to_string())]).is_none());
    assert_eq!(vpn_name_entry("  Work VPN "), Some("Work VPN".to_string()));
    assert_eq!(vpn_name_entry("   "), None);
}

#[test]
fn vpn_rows() {
    let p = VpnProfile {
        name: "Tailscale".to_string(),
        vpn_type: "tailscale".to_string(),
        path: "external:tailscale".to_string(),
        is_active: false,
        is_external: true,
    };
    assert_eq!(vpn_icon_name(&p), "network-wireless-encrypted-symbolic");
    assert_eq!(vpn_row_title(&p), "Tailscale (App)");
    assert_eq!(vpn_row_status(&p), "tailscale");
    let q = VpnProfile { is_active: true, is_external: false, path: "/s/4".to_string(), ..p };
    assert_eq!(vpn_icon_name(&q), "network-vpn-symbolic");
    assert_eq!(vpn_row_title(&q), "Tailscale");
    assert_eq!(vpn_row_status(&q), "Connected");
}

#[test]
fn config_files_and_joins() {
    assert_eq!(theme_path(&Some("/home/ann".to_string())), Some("/home/ann/.config/orbit/theme.toml".to_string()));
    assert_eq!(style_css_path(&Some("/root/".to_string())), Some("/root/.config/orbit/style.css".to_string()));
    assert_eq!(theme_path(&Some(String::new())), Some(".config/orbit/theme.toml".to_string()));
    assert_eq!(theme_path(&None), None);
    assert_eq!(join_texts(&vec!["a".to_string(), "b".to_string(), "c".to_string()], ", "), "a, b, c");
    assert_eq!(join_texts(&vec![], ", "), "");
}

#[test]
fn shown_passkeys_read_back() {
    for k in [0u32, 7, 42, 999_999, 1_000_000, u32::MAX] {
        let prompt = confirm_prompt("D", k);
        let digits = prompt.trim_start_matches("Does D show passkey ").trim_end_matches('?');
        assert!(digits.len() >= 6);
        assert_eq!(parse_passkey(digits), Some(k));
    }
}

#[test]
fn escape_in_search_box_clears_first() {
    assert_eq!(search_escape("caf"), SearchEscape::ClearSearch);
    assert_eq!(search_escape(""), SearchEscape::HideWindow);
}
