use astra_remote::action::{
    translate_click, translate_key, translate_mouse, translate_scroll, ClickKind, InputAction, KeyTarget,
    ScrollAxis,
};
use astra_remote::error::ErrorKind;
use astra_remote::keys::{key_to_code, resolve, resolve_lowered, KeyId};

#[test]
fn resolve_ignores_case_f5() {
    assert_eq!(resolve("F5"), resolve("f5"));
    assert_eq!(resolve("F5"), Some(KeyId::F5));
}

#[test]
fn resolve_names_and_aliases() {
    assert_eq!(resolve("CTRL"), Some(KeyId::Control));
    assert_eq!(resolve("Control"), Some(KeyId::Control));
    assert_eq!(resolve("super"), Some(KeyId::Meta));
    assert_eq!(resolve("page_down"), Some(KeyId::PageDown));
    assert_eq!(resolve("Esc"), Some(KeyId::Escape));
    assert_eq!(resolve("Q"), Some(KeyId::Char('q')));
    assert_eq!(resolve("7"), Some(KeyId::Char('7')));
    assert_eq!(resolve("f12"), Some(KeyId::F12));
}

#[test]
fn resolve_unknown_is_none() {
    assert_eq!(resolve("hello"), None);
    assert_eq!(resolve(""), None);
    assert_eq!(resolve("f13"), None);
    assert_eq!(resolve(" ctrl"), None);
}

#[test]
fn resolve_lowered_needs_lowercase() {
    assert_eq!(resolve_lowered("tab"), Some(KeyId::Tab));
    assert_eq!(resolve_lowered("TAB"), None);
}

#[test]
fn scan_codes() {
    assert_eq!(key_to_code("A"), Some("30".to_string()));
    assert_eq!(key_to_code("ctrl"), Some("29".to_string()));
    assert_eq!(key_to_code("LeftArrow"), Some("105".to_string()));
    assert_eq!(key_to_code("F11"), Some("87".to_string()));
    assert_eq!(key_to_code("Home"), Some("102".to_string()));
    assert_eq!(key_to_code("1"), None);
}

#[test]
fn mouse_move_keeps_deltas() {
    assert_eq!(translate_mouse(-5, 12), InputAction::MouseMove { dx: -5, dy: 12 });
}

#[test]
fn click_kinds_all_accepted() {
    let cases = [
        ("left", ClickKind::Left),
        ("left_click", ClickKind::Left),
        ("right", ClickKind::Right),
        ("right_click", ClickKind::Right),
        ("double", ClickKind::Double),
        ("double_click", ClickKind::Double),
    ];
    for (name, kind) in cases {
        assert_eq!(translate_click(name).unwrap(), InputAction::Click { kind });
    }
}

#[test]
fn click_unknown_kind_rejected() {
    let e = translate_click("triple").unwrap_err();
    assert_eq!(e.kind, ErrorKind::InvalidRequest);
    assert_eq!(e.message, "Unknown click type: triple");
    assert_eq!(e.http_status(), 400);
}

#[test]
fn click_kind_is_case_sensitive() {
    assert!(translate_click("LEFT").is_err());
    assert!(translate_click("").is_err());
}

#[test]
fn scroll_up_three_is_thirty() {
    assert_eq!(
        translate_scroll("up", Some(3)).unwrap(),
        InputAction::Scroll { axis: ScrollAxis::Vertical, amount: 30 }
    );
}

#[test]
fn scroll_directions_and_default_amount() {
    assert_eq!(
        translate_scroll("down", None).unwrap(),
        InputAction::Scroll { axis: ScrollAxis::Vertical, amount: -10 }
    );
    assert_eq!(
        translate_scroll("left", Some(2)).unwrap(),
        InputAction::Scroll { axis: ScrollAxis::Horizontal, amount: -20 }
    );
    assert_eq!(
        translate_scroll("right", Some(-4)).unwrap(),
        InputAction::Scroll { axis: ScrollAxis::Horizontal, amount: -40 }
    );
    assert_eq!(
        translate_scroll("down", Some(-1)).unwrap(),
        InputAction::Scroll { axis: ScrollAxis::Vertical, amount: 10 }
    );
}

#[test]
fn scroll_largest_amount() {
    assert_eq!(
        translate_scroll("down", Some(214748364)).unwrap(),
        InputAction::Scroll { axis: ScrollAxis::Vertical, amount: -2147483640 }
    );
}

#[test]
fn scroll_unknown_direction_rejected() {
    let e = translate_scroll("diagonal", Some(1)).unwrap_err();
    assert_eq!(e.kind, ErrorKind::InvalidRequest);
    assert_eq!(e.message, "Unknown scroll direction: diagonal");
    assert!(translate_scroll("Up", None).is_err());
}

#[test]
fn unresolved_key_is_literal_unchanged() {
    assert_eq!(
        translate_key("Hello World", &None),
        InputAction::KeyPress { key: KeyTarget::Literal("Hello World".to_string()), modifiers: vec![] }
    );
}

#[test]
fn key_with_modifiers_drops_unknown() {
    let mods = Some(vec!["ctrl".to_string(), "bogus".to_string(), "SHIFT".to_string()]);
    assert_eq!(
        translate_key("C", &mods),
        InputAction::KeyPress { key: KeyTarget::Key(KeyId::Char('c')), modifiers: vec![KeyId::Control, KeyId::Shift] }
    );
}
