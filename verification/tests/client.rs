use totem_studio::client::{serial_number_hex, LiveKeymap, WireBinding, WireKeymap, WireLayer};

#[test]
fn live_keymap_mirrors_the_wire_message() {
    let km = WireKeymap {
        layers: vec![
            WireLayer {
                id: 0,
                name: "BASE".to_string(),
                bindings: vec![
                    WireBinding { behavior_id: 3, param1: 0x0007_0004, param2: 0 },
                    WireBinding { behavior_id: 9, param1: 1, param2: 0x0007_002C },
                ],
            },
            WireLayer { id: 5, name: "GAME".to_string(), bindings: vec![] },
        ],
        available_layers: 8,
        max_layer_name_length: 12,
    };
    let live = LiveKeymap::from_proto(km);
    assert_eq!(live.available_layers, 8);
    assert_eq!(live.max_layer_name_length, 12);
    assert_eq!(live.layers.len(), 2);
    assert_eq!(live.layers[0].id, 0);
    assert_eq!(live.layers[0].name, "BASE");
    assert_eq!(live.layers[0].bindings.len(), 2);
    assert_eq!(live.layers[0].bindings[0].behavior_id, 3);
    assert_eq!(live.layers[0].bindings[0].param1, 0x0007_0004);
    assert_eq!(live.layers[0].bindings[1].param2, 0x0007_002C);
    assert_eq!(live.layers[1].id, 5);
    assert_eq!(live.layers[1].name, "GAME");
    assert!(live.layers[1].bindings.is_empty());
}

#[test]
fn serial_number_renders_as_lowercase_hex() {
    assert_eq!(serial_number_hex(&vec![0x00, 0xAB, 0x05, 0xFF]), "00ab05ff");
    assert_eq!(serial_number_hex(&vec![]), "");
}
