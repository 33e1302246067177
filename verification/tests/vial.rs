use totem_studio::vial::{
    buffer_request, is_vial_device, layer_count_request, layer_count_valid, parse_vial_keymap,
    response_data_range,
};

#[test]
fn hid_device_matching() {
    assert!(is_vial_device(0x4C4B, 0x544D, 0xFF60));
    assert!(!is_vial_device(0x4C4B, 0x544D, 0x0001));
    assert!(!is_vial_device(0x1234, 0x544D, 0xFF60));
}

#[test]
fn layer_count_request_shape() {
    let p = layer_count_request();
    assert_eq!(p.len(), 33);
    assert_eq!(p[0], 0x00);
    assert_eq!(p[1], 0x11);
    assert!(p[2..].iter().all(|&b| b == 0));
}

#[test]
fn layer_count_bounds() {
    assert!(!layer_count_valid(0));
    assert!(layer_count_valid(1));
    assert!(layer_count_valid(32));
    assert!(!layer_count_valid(33));
}

#[test]
fn buffer_request_shape() {
    let p = buffer_request(0x1234, 28);
    assert_eq!(p.len(), 33);
    assert_eq!(p[0], 0x00);
    assert_eq!(p[1], 0x12);
    assert_eq!(p[2], 0x12);
    assert_eq!(p[3], 0x34);
    assert_eq!(p[4], 28);
    assert!(p[5..].iter().all(|&b| b == 0));
}

#[test]
fn response_data_ranges() {
    // A reply echoing the command carries data after the four header bytes.
    assert_eq!(response_data_range(0x12, 32, 28), (4, 28));
    // A reply without the echo is all data.
    assert_eq!(response_data_range(0x00, 10, 28), (0, 10));
    // A short read yields what fits.
    assert_eq!(response_data_range(0x12, 3, 28), (4, 0));
    assert_eq!(response_data_range(0x12, 10, 28), (4, 6));
}

#[test]
fn keymap_decoding_is_big_endian_per_slot() {
    let raw = vec![0x00, 0x41, 0x00, 0x42, 0x01, 0x43, 0x00, 0x44];
    let km = parse_vial_keymap(&raw, 1, 2, 2);
    assert_eq!(km.rows, 1);
    assert_eq!(km.cols, 2);
    assert_eq!(km.layers, 2);
    assert_eq!(km.keymap[0][0], vec![0x0041, 0x0042]);
    assert_eq!(km.keymap[1][0], vec![0x0143, 0x0044]);
}

#[test]
fn keymap_decoding_pads_short_buffers_with_zero() {
    // Only the first slot is present; the rest read as zero.
    let raw = vec![0x00, 0x41];
    let km = parse_vial_keymap(&raw, 2, 2, 1);
    assert_eq!(km.keymap[0][0], vec![0x0041, 0x0000]);
    assert_eq!(km.keymap[0][1], vec![0x0000, 0x0000]);
}
