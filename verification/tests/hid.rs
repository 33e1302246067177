use totem_studio::hid_usage::{
    hid_to_keycode, hid_to_keycode_with_modifiers, keycode_to_hid, modifier_to_bits,
    parse_keycode_with_modifiers,
};

#[test]
fn basic_letter() {
    assert_eq!(keycode_to_hid("A"), Some(0x0007_0004));
    assert_eq!(keycode_to_hid("Z"), Some(0x0007_001D));
}

#[test]
fn number_keys() {
    assert_eq!(keycode_to_hid("N1"), Some(0x0007_001E));
    assert_eq!(keycode_to_hid("N0"), Some(0x0007_0027));
}

#[test]
fn shifted_symbols() {
    // EXCL = LS(N1) = (0x02 << 24) | 0x0007001E
    assert_eq!(keycode_to_hid("EXCL"), Some(0x0200_0000 | 0x0007_001E));
    assert_eq!(keycode_to_hid("AT"), Some(0x0200_0000 | 0x0007_001F));
}

#[test]
fn consumer_keys() {
    assert_eq!(keycode_to_hid("C_VOL_UP"), Some(0x000C_00E9));
    assert_eq!(keycode_to_hid("C_MUTE"), Some(0x000C_00E2));
}

#[test]
fn modifiers() {
    assert_eq!(keycode_to_hid("LCTRL"), Some(0x0007_00E0));
    assert_eq!(keycode_to_hid("RGUI"), Some(0x0007_00E7));
}

#[test]
fn international() {
    assert_eq!(keycode_to_hid("INT1"), Some(0x0007_0087));
    assert_eq!(keycode_to_hid("LANG1"), Some(0x0007_0090));
    assert_eq!(keycode_to_hid("NON_US_HASH"), Some(0x0007_0032));
    assert_eq!(keycode_to_hid("NUBS"), Some(0x0007_0064));
}

#[test]
fn reverse_lookup() {
    assert_eq!(hid_to_keycode(0x0007_0004), Some("A"));
    assert_eq!(hid_to_keycode(0x000C_00E9), Some("C_VOL_UP"));
}

#[test]
fn parse_plain_keycode() {
    assert_eq!(parse_keycode_with_modifiers("A"), Some(0x0007_0004));
}

#[test]
fn parse_single_modifier_wrapper() {
    // LS(A) = (0x02 << 24) | 0x00070004
    assert_eq!(
        parse_keycode_with_modifiers("LS(A)"),
        Some(0x0200_0000 | 0x0007_0004)
    );
}

#[test]
fn parse_nested_modifier_wrappers() {
    // LC(LS(A)) = ((0x01 | 0x02) << 24) | 0x00070004
    assert_eq!(
        parse_keycode_with_modifiers("LC(LS(A))"),
        Some(0x0300_0000 | 0x0007_0004)
    );
}

#[test]
fn modifier_to_bits_works() {
    assert_eq!(modifier_to_bits("LSHFT"), Some(0x02));
    assert_eq!(modifier_to_bits("RALT"), Some(0x40));
    assert_eq!(modifier_to_bits("UNKNOWN"), None);
}

#[test]
fn unknown_returns_none() {
    assert_eq!(keycode_to_hid("NONEXISTENT"), None);
    assert_eq!(hid_to_keycode(0xDEAD_BEEF), None);
    assert_eq!(parse_keycode_with_modifiers("NOPE"), None);
}

#[test]
fn reverse_with_modifiers_prefers_named_symbol() {
    // A known shifted symbol comes back under its canonical name, not as a
    // wrapper form.
    assert_eq!(hid_to_keycode_with_modifiers(0x0200_0000 | 0x0007_001E), "EXCL");
}

#[test]
fn reverse_with_modifiers_wraps_composites() {
    // LS(A) has no canonical name, so it is rendered as a wrapper.
    assert_eq!(hid_to_keycode_with_modifiers(0x0200_0000 | 0x0007_0004), "LS(A)");
    // Two modifier bits wrap outer-to-inner in the fixed order.
    assert_eq!(
        hid_to_keycode_with_modifiers(0x0300_0000 | 0x0007_0004),
        "LC(LS(A))"
    );
}

#[test]
fn reverse_with_modifiers_falls_back_to_hex() {
    assert_eq!(hid_to_keycode_with_modifiers(0x0007_9999), "0x00079999");
    // Unknown base under a modifier also falls back to the full hex form.
    assert_eq!(hid_to_keycode_with_modifiers(0x0200_9999), "0x02009999");
}

#[test]
fn parse_tolerates_blanks_inside_wrappers() {
    assert_eq!(
        parse_keycode_with_modifiers("  LS ( A ) "),
        Some(0x0200_0000 | 0x0007_0004)
    );
}

#[test]
fn wrapper_prefix_without_parens_is_a_plain_name() {
    // `LSHFT` starts with the `LS` wrapper prefix but has no parentheses, so
    // it is looked up as a plain name.
    assert_eq!(parse_keycode_with_modifiers("LSHFT"), Some(0x0007_00E1));
}
