use totem_studio::battery::{
    battery_char_paths, battery_levels_from_power_supply, battery_levels_from_readings,
    battery_outcome, dev_path_prefix, extract_mac_from_dbus_path, is_battery_char,
    is_target_device, mac_from_address, parse_busctl_byte_array,
};
use totem_studio::transport::TransportKind;

#[test]
fn registry_beats_gatt() {
    // Both a power-supply-registry result and a direct GATT read are
    // available: the registry-derived levels win.
    let r = battery_outcome(TransportKind::Ble, true, vec![81, 76], vec![], vec![60]);
    assert_eq!(r, Ok(vec![81, 76]));
}

#[test]
fn bus_reads_beat_gatt_when_registry_is_empty() {
    let r = battery_outcome(TransportKind::Ble, true, vec![], vec![70, 68], vec![60]);
    assert_eq!(r, Ok(vec![70, 68]));
}

#[test]
fn gatt_is_last_resort() {
    let r = battery_outcome(TransportKind::Ble, true, vec![], vec![], vec![60]);
    assert_eq!(r, Ok(vec![60]));
    // With the address unknown, the first two tiers cannot run at all.
    let r = battery_outcome(TransportKind::Ble, false, vec![81], vec![70], vec![60]);
    assert_eq!(r, Ok(vec![60]));
}

#[test]
fn all_tiers_empty_yields_empty_list() {
    let r = battery_outcome(TransportKind::Ble, true, vec![], vec![], vec![]);
    assert_eq!(r, Ok(vec![]));
}

#[test]
fn serial_battery_always_fails() {
    // Battery is not observable over the serial link, whatever the tiers
    // would have held.
    let r = battery_outcome(TransportKind::Usb, true, vec![81], vec![70], vec![60]);
    assert_eq!(r, Err("Battery monitoring requires BLE connection".to_string()));
    let r = battery_outcome(TransportKind::Usb, false, vec![], vec![], vec![]);
    assert_eq!(r, Err("Battery monitoring requires BLE connection".to_string()));
}

#[test]
fn mac_extraction_from_object_path() {
    assert_eq!(
        extract_mac_from_dbus_path("/org/bluez/hci0/dev_AA_BB_CC_DD_EE_FF"),
        Some("aa:bb:cc:dd:ee:ff".to_string())
    );
    // A trailing object path after the device segment does not disturb it.
    assert_eq!(
        extract_mac_from_dbus_path("/org/bluez/hci0/dev_AA_BB_CC_DD_EE_FF/service0018/char0019"),
        Some("aa:bb:cc:dd:ee:ff".to_string())
    );
    // The rightmost marker wins.
    assert_eq!(
        extract_mac_from_dbus_path("/dev_00_00_00_00_00_00/dev_AA_BB_CC_DD_EE_FF"),
        Some("aa:bb:cc:dd:ee:ff".to_string())
    );
    // A segment of the wrong length is no address.
    assert_eq!(extract_mac_from_dbus_path("/org/bluez/hci0/dev_AA_BB"), None);
    assert_eq!(extract_mac_from_dbus_path("/org/bluez/hci0"), None);
}

#[test]
fn address_normalisation() {
    assert_eq!(mac_from_address("AA:BB:CC:DD:EE:FF"), "aa:bb:cc:dd:ee:ff");
    // The all-zero address means "unknown" and becomes empty.
    assert_eq!(mac_from_address("00:00:00:00:00:00"), "");
}

#[test]
fn device_path_prefix_round_trip() {
    assert_eq!(
        dev_path_prefix("aa:bb:cc:dd:ee:ff"),
        "/org/bluez/hci0/dev_AA_BB_CC_DD_EE_FF"
    );
}

#[test]
fn busctl_byte_array_parsing() {
    assert_eq!(parse_busctl_byte_array("ay 1 64\n"), Some(64));
    assert_eq!(parse_busctl_byte_array("  ay 2 100 50  "), Some(100));
    assert_eq!(parse_busctl_byte_array("ay 1"), None);
    assert_eq!(parse_busctl_byte_array("s \"hello\" x"), None);
    assert_eq!(parse_busctl_byte_array(""), None);
    assert_eq!(parse_busctl_byte_array("ay 1 999"), None);
}

#[test]
fn tree_filtering_keeps_this_devices_characteristics() {
    let tree = "\
/org/bluez\n\
  /org/bluez/hci0\n\
  \u{251c}\u{2500}/org/bluez/hci0/dev_AA_BB_CC_DD_EE_FF\n\
  \u{2502} \u{251c}\u{2500}/org/bluez/hci0/dev_AA_BB_CC_DD_EE_FF/service0018\n\
  \u{2502} \u{2502} \u{2514}\u{2500}/org/bluez/hci0/dev_AA_BB_CC_DD_EE_FF/service0018/char0019\n\
  \u{2502} \u{2514}\u{2500}/org/bluez/hci0/dev_AA_BB_CC_DD_EE_FF/service001a/char001b\n\
  \u{2514}\u{2500}/org/bluez/hci0/dev_11_22_33_44_55_66/service0018/char0019\n";
    let paths = battery_char_paths(tree, "/org/bluez/hci0/dev_AA_BB_CC_DD_EE_FF");
    assert_eq!(
        paths,
        vec![
            "/org/bluez/hci0/dev_AA_BB_CC_DD_EE_FF/service0018/char0019".to_string(),
            "/org/bluez/hci0/dev_AA_BB_CC_DD_EE_FF/service001a/char001b".to_string(),
        ]
    );
}

#[test]
fn power_supply_entries_filter_parse_and_sort() {
    let entries = vec![
        // The secondary half sorts after the primary by name.
        ("hid-aa:bb:cc:dd:ee:ff-battery-0".to_string(), "47\n".to_string()),
        ("hid-aa:bb:cc:dd:ee:ff-battery".to_string(), "90\n".to_string()),
        // Another device's entry is ignored.
        ("hid-11:22:33:44:55:66-battery".to_string(), "12".to_string()),
        // A matching entry with an unreadable capacity is skipped.
        ("hid-aa:bb:cc:dd:ee:ff-extra".to_string(), "n/a".to_string()),
        // OS names are matched case-insensitively.
        ("AC".to_string(), "100".to_string()),
    ];
    let levels = battery_levels_from_power_supply(&entries, "aa:bb:cc:dd:ee:ff");
    assert_eq!(levels, vec![90, 47]);
}

#[test]
fn readings_sorted_by_path_become_left_and_right() {
    let readings = vec![
        ("/dev_X/service001a/char001b".to_string(), 47u8),
        ("/dev_X/service0018/char0019".to_string(), 90u8),
    ];
    let levels = battery_levels_from_readings(readings);
    assert_eq!(levels.left, Some(90));
    assert_eq!(levels.right, Some(47));

    let one = battery_levels_from_readings(vec![("/p".to_string(), 55u8)]);
    assert_eq!(one.left, Some(55));
    assert_eq!(one.right, None);

    let none = battery_levels_from_readings(vec![]);
    assert_eq!(none.left, None);
    assert_eq!(none.right, None);
}

#[test]
fn managed_object_filters() {
    assert!(is_target_device("org.bluez.Device1", "TOTEM"));
    assert!(!is_target_device("org.bluez.Device1", "OTHER"));
    assert!(!is_target_device("org.bluez.GattCharacteristic1", "TOTEM"));
    assert!(is_battery_char(
        "/org/bluez/hci0/dev_A/service0018/char0019",
        "/org/bluez/hci0/dev_A",
        "org.bluez.GattCharacteristic1",
        "00002a19-0000-1000-8000-00805f9b34fb"
    ));
    assert!(!is_battery_char(
        "/org/bluez/hci0/dev_B/service0018/char0019",
        "/org/bluez/hci0/dev_A",
        "org.bluez.GattCharacteristic1",
        "00002a19-0000-1000-8000-00805f9b34fb"
    ));
    assert!(!is_battery_char(
        "/org/bluez/hci0/dev_A/service0018/char0019",
        "/org/bluez/hci0/dev_A",
        "org.bluez.GattCharacteristic1",
        "00002a00-0000-1000-8000-00805f9b34fb"
    ));
}
