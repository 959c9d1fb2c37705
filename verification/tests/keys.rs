use sandbox_backend::keys::{browser_key_to_keysym, key_event_inputs, map_key_to_keycode, map_key_to_ui_key, map_key_to_xdotool, UiKey};

#[test]
fn keycode_named_keys() {
    assert_eq!(map_key_to_keycode("Enter"), 36);
    assert_eq!(map_key_to_keycode("Escape"), 9);
    assert_eq!(map_key_to_keycode("Meta"), 133);
    assert_eq!(map_key_to_keycode("PageDown"), 117);
}

#[test]
fn keycode_letters_ignore_case_and_digits() {
    assert_eq!(map_key_to_keycode("a"), 38);
    assert_eq!(map_key_to_keycode("A"), 38);
    assert_eq!(map_key_to_keycode("q"), 24);
    assert_eq!(map_key_to_keycode("0"), 19);
    assert_eq!(map_key_to_keycode("5"), 14);
    assert_eq!(map_key_to_keycode(" "), 65);
}

#[test]
fn keycode_unknown_is_zero() {
    assert_eq!(map_key_to_keycode("F1"), 0);
    assert_eq!(map_key_to_keycode(""), 0);
    assert_eq!(map_key_to_keycode("!"), 0);
    assert_eq!(map_key_to_keycode("é"), 0);
}

#[test]
fn xdotool_names() {
    assert_eq!(map_key_to_xdotool("Enter"), "Return");
    assert_eq!(map_key_to_xdotool("Backspace"), "BackSpace");
    assert_eq!(map_key_to_xdotool("Meta"), "Super_L");
    assert_eq!(map_key_to_xdotool("ArrowLeft"), "Left");
    assert_eq!(map_key_to_xdotool("PageUp"), "Page_Up");
    assert_eq!(map_key_to_xdotool(" "), "space");
}

#[test]
fn xdotool_single_characters_lowercased() {
    assert_eq!(map_key_to_xdotool("A"), "a");
    assert_eq!(map_key_to_xdotool("z"), "z");
    assert_eq!(map_key_to_xdotool("1"), "1");
    assert_eq!(map_key_to_xdotool("F5"), "F5");
    assert_eq!(map_key_to_xdotool("é"), "é");
}

#[test]
fn keysym_named_and_printable() {
    assert_eq!(browser_key_to_keysym("Enter"), Some(0xFF0D));
    assert_eq!(browser_key_to_keysym("Delete"), Some(0xFFFF));
    assert_eq!(browser_key_to_keysym("ArrowDown"), Some(0xFF54));
    assert_eq!(browser_key_to_keysym(" "), Some(0x20));
    assert_eq!(browser_key_to_keysym("a"), Some(0x61));
    assert_eq!(browser_key_to_keysym("~"), Some(0x7E));
}

#[test]
fn keysym_only_for_single_characters() {
    assert_eq!(browser_key_to_keysym("Shift"), None);
    assert_eq!(browser_key_to_keysym("F1"), None);
    assert_eq!(browser_key_to_keysym(""), None);
    assert_eq!(browser_key_to_keysym("é"), None);
    assert_eq!(browser_key_to_keysym("\u{7f}"), None);
}

#[test]
fn ui_keys() {
    assert_eq!(map_key_to_ui_key("Space"), Some(UiKey::Space));
    assert_eq!(map_key_to_ui_key(" "), Some(UiKey::Space));
    assert_eq!(map_key_to_ui_key("q"), Some(UiKey::Q));
    assert_eq!(map_key_to_ui_key("Q"), Some(UiKey::Q));
    assert_eq!(map_key_to_ui_key("7"), Some(UiKey::Num7));
    assert_eq!(map_key_to_ui_key("Home"), Some(UiKey::Home));
    assert_eq!(map_key_to_ui_key("F1"), None);
    assert_eq!(map_key_to_ui_key("!"), None);
}

#[test]
fn key_inputs_text_only_on_single_byte_press() {
    let a = key_event_inputs("a", true);
    assert_eq!(a.key, Some(UiKey::A));
    assert_eq!(a.text.as_deref(), Some("a"));
    let released = key_event_inputs("a", false);
    assert_eq!(released.key, Some(UiKey::A));
    assert_eq!(released.text, None);
    let enter = key_event_inputs("Enter", true);
    assert_eq!(enter.key, Some(UiKey::Enter));
    assert_eq!(enter.text, None);
    let bang = key_event_inputs("!", true);
    assert_eq!(bang.key, None);
    assert_eq!(bang.text.as_deref(), Some("!"));
    let accented = key_event_inputs("é", true);
    assert_eq!(accented.key, None);
    assert_eq!(accented.text, None);
}

#[test]
fn keycodes_distinct_up_to_case() {
    let keys = [
        "Enter", "Escape", "Backspace", "Tab", "Shift", "Control", "Alt", "Meta", "ArrowUp", "ArrowDown",
        "ArrowLeft", "ArrowRight", "Delete", "Home", "End", "PageUp", "PageDown", " ",
        "a", "b", "c", "d", "e", "f", "g", "h", "i", "j", "k", "l", "m", "n", "o", "p", "q", "r", "s", "t",
        "u", "v", "w", "x", "y", "z", "0", "1", "2", "3", "4", "5", "6", "7", "8", "9",
    ];
    let mut seen = std::collections::HashSet::new();
    for k in keys {
        let code = map_key_to_keycode(k);
        assert!((9..=133).contains(&code), "{k:?}");
        assert!(seen.insert(code), "{k:?}");
        if k.len() == 1 {
            assert_eq!(map_key_to_keycode(&k.to_uppercase()), code, "{k:?}");
        }
    }
}

#[test]
fn xdotool_names_are_stable() {
    for k in ["Enter", "Backspace", "Shift", "Meta", "ArrowUp", "PageDown", " ", "A", "z", "F5", "é", "Return", "space"] {
        let once = map_key_to_xdotool(k);
        assert_eq!(map_key_to_xdotool(&once), once, "{k:?}");
    }
}
