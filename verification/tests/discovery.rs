use totem_studio::transport::{
    ble_device_info, is_zmk_usb_device, merge_discovered, usb_device_info, DeviceInfo,
    TransportKind,
};

#[test]
fn usb_markers_recognise_the_device_family() {
    assert!(is_zmk_usb_device(&Some("TOTEM Keyboard".to_string()), &None));
    assert!(is_zmk_usb_device(&Some("ZMK Project thing".to_string()), &None));
    assert!(is_zmk_usb_device(&Some("nRF52 DK".to_string()), &None));
    assert!(is_zmk_usb_device(&None, &Some("GEIGEIGEIST".to_string())));
    assert!(is_zmk_usb_device(&None, &Some("Nordic Semiconductor".to_string())));
    assert!(!is_zmk_usb_device(&Some("Arduino Uno".to_string()), &Some("Arduino".to_string())));
    assert!(!is_zmk_usb_device(&None, &None));
}

#[test]
fn usb_candidate_prefers_product_name() {
    let d = usb_device_info("/dev/ttyACM0", &Some("TOTEM".to_string()));
    assert_eq!(d.id, "/dev/ttyACM0");
    assert_eq!(d.name, "TOTEM");
    assert_eq!(d.transport, TransportKind::Usb);

    let d = usb_device_info("/dev/ttyACM1", &None);
    assert_eq!(d.name, "/dev/ttyACM1");
}

#[test]
fn ble_candidate_falls_back_to_generic_name() {
    let d = ble_device_info("hci0/dev_AA_BB", Some("TOTEM".to_string()));
    assert_eq!(d.id, "hci0/dev_AA_BB");
    assert_eq!(d.name, "TOTEM");
    assert_eq!(d.transport, TransportKind::Ble);

    let d = ble_device_info("hci0/dev_CC_DD", None);
    assert_eq!(d.name, "ZMK Keyboard");
}

#[test]
fn ble_scan_failure_is_not_fatal_to_discovery() {
    let usb = vec![usb_device_info("/dev/ttyACM0", &Some("TOTEM".to_string()))];
    let merged = merge_discovered(usb.clone(), Err("No Bluetooth adapter found".to_string()));
    assert_eq!(merged.len(), 1);
    assert_eq!(merged[0].id, "/dev/ttyACM0");
}

#[test]
fn discovery_concatenates_usb_then_ble() {
    let usb = vec![usb_device_info("/dev/ttyACM0", &None)];
    let ble = vec![ble_device_info("periph-1", None)];
    let merged: Vec<DeviceInfo> = merge_discovered(usb, Ok(ble));
    assert_eq!(merged.len(), 2);
    assert_eq!(merged[0].transport, TransportKind::Usb);
    assert_eq!(merged[1].transport, TransportKind::Ble);
    assert_eq!(merged[1].id, "periph-1");
}
