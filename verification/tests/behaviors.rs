use totem_studio::behaviors::{
    action_to_display_name, display_name_to_action, extract_param_domain, format_param,
    resolve_binding, unresolve_binding, BehaviorMeta, ParamDomain, ParamValueKind,
};

fn sample_map() -> Vec<(String, i32)> {
    vec![
        ("key press".to_string(), 3),
        ("layer-tap".to_string(), 4),
        ("bluetooth".to_string(), 5),
        ("output selection".to_string(), 6),
        ("momentary layer".to_string(), 7),
        ("transparent".to_string(), 9),
        ("home_row_mod_left".to_string(), 12),
        ("oddball".to_string(), 13),
    ]
}

#[test]
fn name_tables_translate_both_ways() {
    assert_eq!(action_to_display_name("kp"), Some("key press"));
    assert_eq!(action_to_display_name("hml"), Some("home_row_mod_left"));
    assert_eq!(action_to_display_name("comma_morph"), Some("comma_semicolon"));
    assert_eq!(action_to_display_name("zzz"), None);
    assert_eq!(display_name_to_action("key press"), Some("kp"));
    assert_eq!(display_name_to_action("comma_semicolon"), Some("comma_morph"));
    assert_eq!(display_name_to_action("mouse_move"), Some("mmv"));
    assert_eq!(display_name_to_action("no such behavior"), None);
}

#[test]
fn param_domain_takes_the_first_recognised_tag() {
    assert_eq!(
        extract_param_domain(&vec![ParamValueKind::HidUsage]),
        ParamDomain::HidUsage
    );
    assert_eq!(
        extract_param_domain(&vec![ParamValueKind::Other, ParamValueKind::LayerId]),
        ParamDomain::Layer
    );
    assert_eq!(
        extract_param_domain(&vec![ParamValueKind::Nil, ParamValueKind::HidUsage]),
        ParamDomain::Unused
    );
    assert_eq!(extract_param_domain(&vec![]), ParamDomain::Unused);
    assert_eq!(
        extract_param_domain(&vec![ParamValueKind::Other]),
        ParamDomain::Unused
    );
}

#[test]
fn param_formatting_follows_the_domain() {
    assert_eq!(format_param(5, ParamDomain::Layer), "5");
    assert_eq!(format_param(1234, ParamDomain::Layer), "1234");
    assert_eq!(format_param(0x0007_0004, ParamDomain::HidUsage), "A");
    assert_eq!(format_param(0x0007_0004, ParamDomain::Unused), "");
}

#[test]
fn resolve_key_press() {
    let map = sample_map();
    assert_eq!(
        resolve_binding("kp", &vec!["B".to_string()], &map),
        Ok((3, 0x0007_0005, 0))
    );
}

#[test]
fn resolve_hold_tap() {
    let map = sample_map();
    assert_eq!(
        resolve_binding("hml", &vec!["LGUI".to_string(), "N".to_string()], &map),
        Ok((12, 0x0007_00E3, 0x0007_0011))
    );
}

#[test]
fn resolve_layer_actions() {
    let map = sample_map();
    assert_eq!(
        resolve_binding("lt", &vec!["2".to_string(), "SPACE".to_string()], &map),
        Ok((4, 2, 0x0007_002C))
    );
    assert_eq!(resolve_binding("mo", &vec!["3".to_string()], &map), Ok((7, 3, 0)));
}

#[test]
fn resolve_no_param_action() {
    let map = sample_map();
    assert_eq!(resolve_binding("trans", &vec![], &map), Ok((9, 0, 0)));
}

#[test]
fn resolve_bluetooth_and_output() {
    let map = sample_map();
    assert_eq!(
        resolve_binding("bt", &vec!["BT_SEL".to_string(), "1".to_string()], &map),
        Ok((5, 1, 0))
    );
    assert_eq!(resolve_binding("bt", &vec!["BT_CLR".to_string()], &map), Ok((5, 0, 0)));
    assert_eq!(resolve_binding("out", &vec!["OUT_BLE".to_string()], &map), Ok((6, 1, 0)));
    assert_eq!(resolve_binding("out", &vec![], &map), Ok((6, 2, 0)));
}

#[test]
fn resolve_fallback_parses_params_as_keycodes() {
    let map = sample_map();
    // An action with no special rule: parameters parse as keycodes, anything
    // unparsable counts as zero.
    assert_eq!(
        resolve_binding("oddball", &vec!["A".to_string()], &map),
        Ok((13, 0x0007_0004, 0))
    );
    assert_eq!(resolve_binding("oddball", &vec![], &map), Ok((13, 0, 0)));
}

#[test]
fn resolve_errors() {
    let map = sample_map();
    assert_eq!(
        resolve_binding("zzz", &vec![], &map),
        Err("Unknown behavior: zzz".to_string())
    );
    assert_eq!(
        resolve_binding("kp", &vec![], &map),
        Err("Missing keycode parameter".to_string())
    );
    assert_eq!(
        resolve_binding("kp", &vec!["QQQ".to_string()], &map),
        Err("Unknown keycode: QQQ".to_string())
    );
    assert_eq!(
        resolve_binding("hml", &vec!["LGUI".to_string()], &map),
        Err("Missing tap parameter".to_string())
    );
    assert_eq!(
        resolve_binding("mo", &vec!["base".to_string()], &map),
        Err("Invalid layer: base".to_string())
    );
}

#[test]
fn unresolve_known_behavior() {
    let metas = vec![
        (
            3,
            BehaviorMeta {
                display_name: "key press".to_string(),
                param1: ParamDomain::HidUsage,
                param2: ParamDomain::Unused,
            },
        ),
        (
            4,
            BehaviorMeta {
                display_name: "layer-tap".to_string(),
                param1: ParamDomain::Layer,
                param2: ParamDomain::HidUsage,
            },
        ),
    ];
    let b = unresolve_binding(3, 0x0007_0004, 0, &metas);
    assert_eq!(b.action, "kp");
    assert_eq!(b.params, vec!["A"]);

    let b = unresolve_binding(4, 2, 0x0007_002C, &metas);
    assert_eq!(b.action, "lt");
    assert_eq!(b.params, vec!["2", "SPACE"]);
}

#[test]
fn unresolve_custom_display_name_passes_through() {
    let metas = vec![(
        8,
        BehaviorMeta {
            display_name: "Weird Thing".to_string(),
            param1: ParamDomain::Unused,
            param2: ParamDomain::Unused,
        },
    )];
    let b = unresolve_binding(8, 0, 0, &metas);
    assert_eq!(b.action, "weird thing");
    assert!(b.params.is_empty());
}

#[test]
fn unresolve_unknown_behavior_id() {
    let metas: Vec<(i32, BehaviorMeta)> = Vec::new();
    let b = unresolve_binding(42, 0, 0, &metas);
    assert_eq!(b.action, "?42");
    assert!(b.params.is_empty());
    let b = unresolve_binding(-7, 0, 0, &metas);
    assert_eq!(b.action, "?-7");
}
