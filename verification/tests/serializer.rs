use totem_studio::keymap::{expand_key_positions, Binding};
use totem_studio::serializer::{contains_all, format_binding, remove_all, reverse_key_positions};

#[test]
fn binding_renders_with_and_without_params() {
    let b = Binding {
        action: "trans".to_string(),
        params: vec![],
    };
    assert_eq!(format_binding(&b), "&trans");

    let b = Binding {
        action: "hml".to_string(),
        params: vec!["LS(LC(LA(LGUI)))".to_string(), "W".to_string()],
    };
    assert_eq!(format_binding(&b), "&hml LS(LC(LA(LGUI))) W");
}

#[test]
fn position_sets() {
    assert!(contains_all(&[1, 2, 3, 4], &[2, 4]));
    assert!(!contains_all(&[1, 2, 3], &[2, 9]));
    assert!(contains_all(&[1], &[]));

    let mut v = vec![1u8, 2, 3, 4, 5];
    remove_all(&mut v, &[2, 4, 9]);
    assert_eq!(v, vec![1, 3, 5]);
}

#[test]
fn whole_groups_reverse_to_their_names() {
    let keys_r = [5u8, 6, 7, 8, 9, 15, 16, 17, 18, 19, 26, 27, 28, 29, 30, 31];
    let thumbs = [32u8, 33, 34, 35, 36, 37];
    let mut positions = Vec::new();
    positions.extend_from_slice(&keys_r);
    positions.extend_from_slice(&thumbs);
    assert_eq!(reverse_key_positions(&positions), "KEYS_R THUMBS");
}

#[test]
fn leftover_positions_stay_numeric() {
    assert_eq!(reverse_key_positions(&[3, 7, 36]), "3 7 36");
    assert_eq!(reverse_key_positions(&[]), "");
}

#[test]
fn group_names_expand_to_their_positions() {
    let groups = vec![
        (
            "KEYS_R".to_string(),
            vec![5u8, 6, 7, 8, 9, 15, 16, 17, 18, 19, 26, 27, 28, 29, 30, 31],
        ),
        ("THUMBS".to_string(), vec![32u8, 33, 34, 35, 36, 37]),
    ];
    let positions = expand_key_positions("KEYS_R THUMBS", &groups);
    assert_eq!(positions.len(), 22);
    assert_eq!(&positions[..3], &[5, 6, 7]);
    assert_eq!(&positions[16..], &[32, 33, 34, 35, 36, 37]);

    // Plain numbers pass through; junk is dropped.
    assert_eq!(expand_key_positions("1 36 junk", &groups), vec![1, 36]);
}
