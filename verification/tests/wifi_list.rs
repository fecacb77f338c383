use orbit::cli::{
    connected_network_name, json_escape, network_list_line, security_label, waybar_status_json,
};
use orbit::panel::{
    network_leads, network_listing, network_row_controls, network_status_text, no_match_text,
    occurs_at_word_start, row_work_label, signal_bar_count, signal_bars, BarStyle, NetworkListing,
    RowWork,
};
use orbit::scan::{
    access_points_from_scan, merge_access_points, security_from_flags, AccessPoint,
    RawAccessPoint, SecurityType,
};

fn ap(ssid: &str, signal: u8, security: SecurityType, connected: bool) -> AccessPoint {
    AccessPoint {
        ssid: ssid.to_string(),
        signal_strength: signal,
        security,
        is_connected: connected,
        device_path: "/org/freedesktop/NetworkManager/Devices/3".to_string(),
        path: format!("/org/freedesktop/NetworkManager/AccessPoint/{}", signal),
    }
}

fn names(v: &[AccessPoint]) -> Vec<String> {
    v.iter().map(|a| a.ssid.clone()).collect()
}

#[test]
fn signal_bars_follow_quarters() {
    assert_eq!(signal_bar_count(0), 1);
    assert_eq!(signal_bar_count(24), 1);
    assert_eq!(signal_bar_count(25), 2);
    assert_eq!(signal_bar_count(49), 2);
    assert_eq!(signal_bar_count(50), 3);
    assert_eq!(signal_bar_count(74), 3);
    assert_eq!(signal_bar_count(75), 4);
    assert_eq!(signal_bar_count(255), 4);
}

#[test]
fn signal_bars_never_decrease_with_strength() {
    let mut last = 0;
    for s in 0..=255u8 {
        let n = signal_bar_count(s);
        assert!(n >= last);
        last = n;
    }
}

#[test]
fn signal_bar_styles() {
    assert_eq!(
        signal_bars(60, true),
        vec![BarStyle::ActiveAccent, BarStyle::ActiveAccent, BarStyle::ActiveAccent, BarStyle::Inactive]
    );
    assert_eq!(
        signal_bars(10, false),
        vec![BarStyle::Active, BarStyle::Inactive, BarStyle::Inactive, BarStyle::Inactive]
    );
}

#[test]
fn security_from_flag_properties() {
    assert_eq!(security_from_flags(0, 0, 0), SecurityType::Open);
    assert_eq!(security_from_flags(1, 0, 0), SecurityType::WEP);
    assert_eq!(security_from_flags(1, 0x144, 0), SecurityType::WPA);
    assert_eq!(security_from_flags(1, 0, 0x88), SecurityType::WPA2);
    assert_eq!(security_from_flags(1, 0x144, 0x400), SecurityType::WPA3);
    assert_eq!(security_from_flags(1, 0x144, 0x300), SecurityType::WPA2);
    assert_eq!(security_from_flags(0, 0, 0x100), SecurityType::WPA2);
    assert_eq!(security_from_flags(1, 0, 0x188), SecurityType::WPA2);
    assert_eq!(security_from_flags(1, 0, 0x588), SecurityType::WPA3);
}

#[test]
fn merge_keeps_strongest_entry_per_network() {
    let scan = vec![
        ap("Home", 40, SecurityType::WPA2, false),
        ap("Cafe", 70, SecurityType::Open, false),
        ap("Home", 80, SecurityType::WPA2, false),
        ap("Home", 30, SecurityType::WPA2, true),
    ];
    let merged = merge_access_points(&scan);
    assert_eq!(names(&merged), vec!["Home", "Cafe"]);
    assert_eq!(merged[0].signal_strength, 80);
    assert!(merged[0].is_connected);
    assert!(!merged[1].is_connected);
}

#[test]
fn merge_orders_equal_strength_by_scan_order() {
    let scan = vec![
        ap("B", 50, SecurityType::Open, false),
        ap("A", 50, SecurityType::Open, false),
        ap("C", 90, SecurityType::Open, false),
    ];
    assert_eq!(names(&merge_access_points(&scan)), vec!["C", "B", "A"]);
}

#[test]
fn merging_a_merged_list_changes_nothing() {
    let scan = vec![
        ap("Home", 40, SecurityType::WPA2, false),
        ap("Cafe", 70, SecurityType::Open, false),
        ap("Home", 80, SecurityType::WPA2, false),
        ap("Lab", 70, SecurityType::WPA3, true),
        ap("Cafe", 10, SecurityType::Open, true),
    ];
    let once = merge_access_points(&scan);
    let twice = merge_access_points(&once);
    assert_eq!(names(&once), vec!["Home", "Cafe", "Lab"]);
    assert_eq!(names(&twice), names(&once));
    for (a, b) in once.iter().zip(twice.iter()) {
        assert_eq!(a.signal_strength, b.signal_strength);
        assert_eq!(a.is_connected, b.is_connected);
        assert_eq!(a.path, b.path);
    }
    assert!(twice[1].is_connected);
}

fn raw(path: &str, ssid: Option<&[u8]>, strength: Option<u8>, rsn: Option<u32>) -> RawAccessPoint {
    RawAccessPoint {
        device_path: "/dev/1".to_string(),
        path: path.to_string(),
        ssid_bytes: ssid.map(|b| b.to_vec()),
        strength,
        flags: Some(1),
        wpa_flags: Some(0),
        rsn_flags: rsn,
    }
}

#[test]
fn scan_entries_without_name_or_path_are_dropped() {
    let entries = vec![
        raw("/ap/1", Some(b"Home"), Some(60), Some(0x88)),
        raw("/", Some(b"Ghost"), Some(90), None),
        raw("/ap/3", Some(b""), Some(90), None),
        raw("/ap/4", None, Some(90), None),
        raw("/ap/5", Some(b"Office"), None, None),
    ];
    let out = access_points_from_scan(&entries, &Some("Home".to_string()));
    assert_eq!(names(&out), vec!["Home", "Office"]);
    assert!(out[0].is_connected);
    assert_eq!(out[0].security, SecurityType::WPA2);
    assert_eq!(out[1].signal_strength, 0);
    assert_eq!(out[1].security, SecurityType::WEP);
}

#[test]
fn listing_without_networks_shows_hint() {
    assert!(matches!(network_listing(&vec![], "home"), NetworkListing::Empty));
}

#[test]
fn listing_splits_connected_and_available() {
    let nets = vec![
        ap("Office", 50, SecurityType::WPA2, false),
        ap("Home", 80, SecurityType::WPA2, true),
        ap("Cafe", 40, SecurityType::Open, false),
    ];
    match network_listing(&nets, "") {
        NetworkListing::Sections { connected, available } => {
            assert_eq!(names(&connected), vec!["Home"]);
            assert_eq!(names(&available), vec!["Office", "Cafe"]);
        }
        _ => panic!("expected sections"),
    }
}

#[test]
fn search_is_case_insensitive_and_puts_word_starts_first() {
    let nets = vec![
        ap("MyHome", 90, SecurityType::WPA2, false),
        ap("Office", 80, SecurityType::WPA2, false),
        ap("home-5G", 70, SecurityType::WPA2, false),
        ap("Guest Home", 60, SecurityType::Open, false),
    ];
    match network_listing(&nets, "HOME") {
        NetworkListing::Sections { connected, available } => {
            assert!(connected.is_empty());
            assert_eq!(names(&available), vec!["home-5G", "Guest Home", "MyHome"]);
        }
        _ => panic!("expected sections"),
    }
}

#[test]
fn search_without_match_reports_query() {
    let nets = vec![ap("Office", 80, SecurityType::WPA2, false)];
    match network_listing(&nets, "Cafe") {
        NetworkListing::NoMatch(q) => {
            assert_eq!(q, "cafe");
            assert_eq!(no_match_text(&q), "No networks matching 'cafe'");
        }
        _ => panic!("expected no match"),
    }
}

#[test]
fn word_start_occurrences() {
    let l: Vec<char> = "guest home".chars().collect();
    let q: Vec<char> = "home".chars().collect();
    assert!(occurs_at_word_start(&l, &q));
    let l2: Vec<char> = "myhome".chars().collect();
    assert!(!occurs_at_word_start(&l2, &q));
    assert!(network_leads(&ap("Home_2", 1, SecurityType::Open, false), "home"));
    assert!(network_leads(&ap("anything", 1, SecurityType::Open, false), ""));
}

#[test]
fn row_status_texts() {
    assert_eq!(network_status_text(&ap("A", 72, SecurityType::WPA2, true)), "Connected · 72%");
    assert_eq!(network_status_text(&ap("A", 40, SecurityType::WPA2, false)), "40% Signal · Secure");
    assert_eq!(network_status_text(&ap("A", 5, SecurityType::Open, false)), "5% Signal · Open");
}

#[test]
fn row_controls_while_connecting() {
    let home = ap("Home", 80, SecurityType::WPA2, false);
    let office = ap("Office", 60, SecurityType::WPA2, true);
    let connecting = Some("Home".to_string());
    let c = network_row_controls(&home, &connecting, &None);
    assert_eq!(c.work, RowWork::Connecting);
    assert!(c.lock);
    assert!(!c.details);
    let c2 = network_row_controls(&office, &connecting, &None);
    assert_eq!(c2.work, RowWork::Disconnect { enabled: true });
    assert!(c2.details);
    let cafe = ap("Cafe", 30, SecurityType::Open, false);
    let c3 = network_row_controls(&cafe, &connecting, &None);
    assert_eq!(c3.work, RowWork::Connect { enabled: false });
    assert!(!c3.lock);
}

#[test]
fn row_controls_while_disconnecting() {
    let office = ap("Office", 60, SecurityType::WPA2, true);
    let dis = Some("Office".to_string());
    let c = network_row_controls(&office, &None, &dis);
    assert_eq!(c.work, RowWork::Disconnecting);
    assert!(!c.details);
    assert_eq!(row_work_label(c.work), "Disconnecting...");
    assert_eq!(row_work_label(RowWork::Connect { enabled: true }), "Connect");
}

#[test]
fn terminal_listing_lines() {
    assert_eq!(
        network_list_line(&ap("Home", 80, SecurityType::WPA2, true)),
        "  Home (80%) WPA2 [Connected]"
    );
    assert_eq!(network_list_line(&ap("Cafe", 7, SecurityType::Open, false)), "  Cafe (7%) Open");
    assert_eq!(security_label(SecurityType::WPA3), "WPA3");
}

#[test]
fn waybar_status_uses_first_connected_network() {
    let nets = vec![
        ap("Office", 50, SecurityType::WPA2, false),
        ap("Home", 80, SecurityType::WPA2, true),
    ];
    assert_eq!(connected_network_name(&nets), Some("Home".to_string()));
    assert_eq!(
        waybar_status_json(&Some(nets)),
        "{\"text\": \"󱗿\", \"tooltip\": \"Home\"}"
    );
    assert_eq!(
        waybar_status_json(&None),
        "{\"text\": \"󱗿\", \"tooltip\": \"Disconnected\"}"
    );
}

#[test]
fn waybar_status_escapes_the_name() {
    let name = "Bob's \"Net\" \\ x\n\t\u{1}é";
    let nets = vec![ap(name, 80, SecurityType::WPA2, true)];
    let line = waybar_status_json(&Some(nets));
    assert_eq!(
        line,
        "{\"text\": \"󱗿\", \"tooltip\": \"Bob's \\\"Net\\\" \\\\ x\\n\\t\\u0001é\"}"
    );
    let v: serde_json::Value = serde_json::from_str(&line).expect("valid JSON");
    assert_eq!(v["tooltip"].as_str(), Some(name));
    assert_eq!(json_escape("\u{8}\u{c}\r\u{1f}"), "\\b\\f\\r\\u001f");
    assert_eq!(json_escape("plain"), "plain");
}
