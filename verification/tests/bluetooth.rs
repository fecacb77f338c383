use orbit::devices::{
    action_button_label, battery_icon_name, battery_is_low, battery_text, busy_text,
    device_details_rows, device_icon_name, device_row_controls, device_status_text,
    devices_in_section, get_device_name, offers_forget, trust_button, BluetoothDevice,
    BluetoothDeviceDetails, DeviceAction, DeviceControls, DeviceSection, DeviceType,
};

fn dev(path: &str, name: &str, connected: bool, paired: bool) -> BluetoothDevice {
    BluetoothDevice {
        path: path.to_string(),
        name: name.to_string(),
        device_type: Some(DeviceType::Audio),
        is_connected: connected,
        is_paired: paired,
        battery_percentage: None,
        is_charging: false,
    }
}

fn names(v: &[BluetoothDevice]) -> Vec<String> {
    v.iter().map(|d| d.name.clone()).collect()
}

#[test]
fn sections_of_device_list() {
    let devices = vec![
        dev("/d/1", "Buds", true, true),
        dev("/d/2", "Keyboard", false, true),
        dev("/d/3", "Speaker", false, false),
        dev("/d/4", "Phone", true, false),
    ];
    assert_eq!(names(&devices_in_section(&devices, DeviceSection::Connected)), vec!["Buds", "Phone"]);
    assert_eq!(names(&devices_in_section(&devices, DeviceSection::Paired)), vec!["Keyboard"]);
    assert_eq!(names(&devices_in_section(&devices, DeviceSection::Available)), vec!["Speaker", "Phone"]);
}

#[test]
fn device_name_lookup() {
    let devices = vec![dev("/d/1", "Buds", true, true), dev("/d/1", "Other", false, false)];
    assert_eq!(get_device_name(&devices, "/d/1"), Some("Buds".to_string()));
    assert_eq!(get_device_name(&devices, "/d/9"), None);
}

#[test]
fn icons_and_status_words() {
    assert_eq!(device_icon_name(Some(DeviceType::Audio)), "audio-headphones-symbolic");
    assert_eq!(device_icon_name(Some(DeviceType::Keyboard)), "input-keyboard-symbolic");
    assert_eq!(device_icon_name(Some(DeviceType::Mouse)), "input-mouse-symbolic");
    assert_eq!(device_icon_name(Some(DeviceType::Phone)), "phone-symbolic");
    assert_eq!(device_icon_name(Some(DeviceType::Other)), "bluetooth-symbolic");
    assert_eq!(device_icon_name(None), "bluetooth-symbolic");
    assert_eq!(device_status_text(&dev("/d", "x", true, false)), "Connected");
    assert_eq!(device_status_text(&dev("/d", "x", false, true)), "Paired");
    assert_eq!(device_status_text(&dev("/d", "x", false, false)), "Available");
}

#[test]
fn battery_indicators() {
    assert_eq!(battery_icon_name(5, true), "battery-flash-symbolic");
    assert_eq!(battery_icon_name(19, false), "battery-caution-symbolic");
    assert_eq!(battery_icon_name(20, false), "battery-low-symbolic");
    assert_eq!(battery_icon_name(39, false), "battery-low-symbolic");
    assert_eq!(battery_icon_name(40, false), "battery-good-symbolic");
    assert_eq!(battery_icon_name(69, false), "battery-good-symbolic");
    assert_eq!(battery_icon_name(70, false), "battery-full-symbolic");
    assert!(battery_is_low(19));
    assert!(!battery_is_low(20));
    assert_eq!(battery_text(85), "85%");
}

#[test]
fn row_controls_of_devices() {
    let buds = dev("/d/1", "Buds", true, true);
    let speaker = dev("/d/3", "Speaker", false, false);
    let keyboard = dev("/d/2", "Keyboard", false, true);
    assert_eq!(
        device_row_controls(&buds, &None, None),
        DeviceControls::Ready { action: DeviceAction::Disconnect, primary: true, details: true }
    );
    assert_eq!(
        device_row_controls(&keyboard, &None, None),
        DeviceControls::Ready { action: DeviceAction::Connect, primary: true, details: true }
    );
    assert_eq!(
        device_row_controls(&speaker, &None, None),
        DeviceControls::Ready { action: DeviceAction::Pair, primary: false, details: false }
    );
    assert_eq!(
        device_row_controls(&speaker, &Some("/d/3".to_string()), Some(DeviceAction::Pair)),
        DeviceControls::Busy(Some(DeviceAction::Pair))
    );
    assert_eq!(busy_text(Some(DeviceAction::Pair)), "Pairing...");
    assert_eq!(busy_text(Some(DeviceAction::Forget)), "Removing...");
    assert_eq!(busy_text(None), "Working...");
    assert_eq!(action_button_label(DeviceAction::Pair), "Pair");
    assert_eq!(action_button_label(DeviceAction::Disconnect), "Disconnect");
}

#[test]
fn details_view_rows() {
    let d = BluetoothDeviceDetails {
        path: "/d/1".to_string(),
        name: "Buds".to_string(),
        address: "AA:BB:CC:DD:EE:FF".to_string(),
        is_connected: false,
        is_paired: true,
        is_trusted: true,
        battery_percentage: None,
        rssi: -61,
    };
    let rows = device_details_rows(&d);
    let values: Vec<&str> = rows.iter().map(|r| r.1.as_str()).collect();
    assert_eq!(values, vec!["Buds", "AA:BB:CC:DD:EE:FF", "Paired", "N/A", "-61 dBm", "Yes"]);
    assert_eq!(rows[4].0, "Signal (RSSI)");
    assert_eq!(trust_button(&d), ("Untrust Device".to_string(), false));
    assert!(offers_forget(&d));
    let d2 = BluetoothDeviceDetails { battery_percentage: Some(40), rssi: 3, is_trusted: false, ..d };
    let rows2 = device_details_rows(&d2);
    assert_eq!(rows2[3].1, "40%");
    assert_eq!(rows2[4].1, "3 dBm");
    assert_eq!(trust_button(&d2), ("Trust Device".to_string(), true));
}
