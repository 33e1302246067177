use totem_studio::keymap::{parse_binding, parse_bindings_list, tokenize_binding, MouseConfig};

#[test]
fn test_tokenize_binding() {
    let tokens = tokenize_binding("hml LS(LC(LA(LGUI))) W");
    assert_eq!(tokens, vec!["hml", "LS(LC(LA(LGUI)))", "W"]);
}

#[test]
fn test_parse_binding_simple() {
    let b = parse_binding("&kp B").unwrap();
    assert_eq!(b.action, "kp");
    assert_eq!(b.params, vec!["B"]);
}

#[test]
fn test_parse_binding_no_params() {
    let b = parse_binding("&trans").unwrap();
    assert_eq!(b.action, "trans");
    assert!(b.params.is_empty());
}

#[test]
fn test_parse_binding_nested_parens() {
    let b = parse_binding("&hml LS(LC(LA(LGUI))) W").unwrap();
    assert_eq!(b.action, "hml");
    assert_eq!(b.params, vec!["LS(LC(LA(LGUI)))", "W"]);
}

#[test]
fn test_parse_binding_modifier() {
    let b = parse_binding("&kp LC(X)").unwrap();
    assert_eq!(b.action, "kp");
    assert_eq!(b.params, vec!["LC(X)"]);
}

#[test]
fn parse_binding_rejects_missing_ampersand() {
    let e = parse_binding("kp B").unwrap_err();
    assert_eq!(e, "Binding doesn't start with &: 'kp B'");
}

#[test]
fn parse_binding_rejects_empty() {
    let e = parse_binding("  &  ").unwrap_err();
    assert_eq!(e, "Empty binding");
}

#[test]
fn bindings_list_splits_on_ampersand() {
    let bs = parse_bindings_list("&kp B &trans\n&hml LGUI N").unwrap();
    assert_eq!(bs.len(), 3);
    assert_eq!(bs[0].action, "kp");
    assert_eq!(bs[0].params, vec!["B"]);
    assert_eq!(bs[1].action, "trans");
    assert!(bs[1].params.is_empty());
    assert_eq!(bs[2].action, "hml");
    assert_eq!(bs[2].params, vec!["LGUI", "N"]);
}

#[test]
fn bindings_list_empty_input() {
    let bs = parse_bindings_list("   \n  ").unwrap();
    assert!(bs.is_empty());
}

#[test]
fn bindings_list_keeps_nested_parens_whole() {
    let bs = parse_bindings_list("&hml LS(LC(LA(LGUI))) W &kp A").unwrap();
    assert_eq!(bs.len(), 2);
    assert_eq!(bs[0].params, vec!["LS(LC(LA(LGUI)))", "W"]);
}

#[test]
fn mouse_config_default_values() {
    let c = MouseConfig::default();
    assert_eq!(c.move_speed, 1500);
    assert_eq!(c.scroll_speed, 20);
    assert_eq!(c.move_time_to_max_ms, 300);
    assert_eq!(c.move_accel_exponent, 1);
    assert_eq!(c.scroll_time_to_max_ms, 300);
    assert_eq!(c.scroll_accel_exponent, 0);
}
