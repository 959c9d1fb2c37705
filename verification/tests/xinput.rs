use sandbox_backend::xinput::{
    build_keysym_map, button_fake_input, keyboard_fake_inputs, keycode_fake_input, screen_position, FakeInput, BUTTON_PRESS,
    BUTTON_RELEASE, KEY_PRESS, KEY_RELEASE,
};
use std::collections::HashMap;

#[test]
fn button_events() {
    assert_eq!(button_fake_input(1, true), FakeInput { event_type: BUTTON_PRESS, detail: 1 });
    assert_eq!(button_fake_input(3, false), FakeInput { event_type: BUTTON_RELEASE, detail: 3 });
}

#[test]
fn fixed_keycode_events() {
    assert_eq!(keycode_fake_input("Enter", true), FakeInput { event_type: KEY_PRESS, detail: 36 });
    assert_eq!(keycode_fake_input("x", false), FakeInput { event_type: KEY_RELEASE, detail: 53 });
}

fn table() -> HashMap<u32, (u8, bool)> {
    let mut m = HashMap::new();
    m.insert(0x61, (38, false));
    m.insert(0x41, (38, true));
    m
}

#[test]
fn shifted_key_press_and_release() {
    let m = table();
    assert_eq!(
        keyboard_fake_inputs(&m, 50, "A", true),
        vec![FakeInput { event_type: KEY_PRESS, detail: 50 }, FakeInput { event_type: KEY_PRESS, detail: 38 }]
    );
    assert_eq!(
        keyboard_fake_inputs(&m, 50, "A", false),
        vec![FakeInput { event_type: KEY_RELEASE, detail: 38 }, FakeInput { event_type: KEY_RELEASE, detail: 50 }]
    );
}

#[test]
fn plain_and_unknown_keys() {
    let m = table();
    assert_eq!(keyboard_fake_inputs(&m, 50, "a", true), vec![FakeInput { event_type: KEY_PRESS, detail: 38 }]);
    assert_eq!(keyboard_fake_inputs(&m, 50, "b", true), vec![]);
    assert_eq!(keyboard_fake_inputs(&m, 50, "é", true), vec![]);
}

#[test]
fn keysym_table_first_entry_wins() {
    // keycodes 8, 9, 10 with two keysyms each
    let syms = vec![0x61, 0x41, 0xFFE1, 0, 0x62, 0x61];
    let (m, shift) = build_keysym_map(8, 2, &syms);
    assert_eq!(m.get(&0x61), Some(&(8, false)));
    assert_eq!(m.get(&0x41), Some(&(8, true)));
    assert_eq!(m.get(&0x62), Some(&(10, false)));
    assert_eq!(m.get(&0), None);
    assert_eq!(shift, 9);
    assert_eq!(m.len(), 4);
}

#[test]
fn keysym_table_only_first_two_columns() {
    let syms = vec![0x31, 0x21, 0x99, 0x32, 0x40, 0x98];
    let (m, shift) = build_keysym_map(10, 3, &syms);
    assert_eq!(m.get(&0x99), None);
    assert_eq!(m.get(&0x40), Some(&(11, true)));
    assert_eq!(shift, 50);
}

#[test]
fn positions_cut_to_16_bits() {
    assert_eq!(screen_position(10, -20), (10, -20));
    assert_eq!(screen_position(70000, 32768), (4464, -32768));
}
