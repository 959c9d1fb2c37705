//! Mapping of browser keyboard names to the key identifiers that the
//! display back ends understand: X11 keycodes (XTEST), xdotool key names,
//! X11 keysyms, and the keys of the immediate-mode UI toolkit used by
//! native sandbox applications.

use vstd::prelude::*;
use vstd::utf8::*;
use vstd::string::StringSliceAdditionalSpecFns;
use crate::text::str_eq;

verus! {

broadcast use vstd::string::group_string_axioms;

// ---------------------------------------------------------------------------
// Single-character helpers
// ---------------------------------------------------------------------------

/// ASCII lower-casing of one character (other characters are unchanged).
pub open spec fn ascii_lower(c: char) -> char {
    match c {
        'A' => 'a', 'B' => 'b', 'C' => 'c', 'D' => 'd', 'E' => 'e', 'F' => 'f',
        'G' => 'g', 'H' => 'h', 'I' => 'i', 'J' => 'j', 'K' => 'k', 'L' => 'l',
        'M' => 'm', 'N' => 'n', 'O' => 'o', 'P' => 'p', 'Q' => 'q', 'R' => 'r',
        'S' => 's', 'T' => 't', 'U' => 'u', 'V' => 'v', 'W' => 'w', 'X' => 'x',
        'Y' => 'y', 'Z' => 'z',
        _ => c,
    }
}

/// A string whose UTF-8 encoding is exactly one byte: one ASCII character.
pub open spec fn is_single_byte(k: Seq<char>) -> bool {
    k.len() == 1 && (k[0] as u32) < 0x80
}

/// The UTF-8 encoding of a string is one byte long exactly when the string
/// is a single ASCII character.
pub proof fn lemma_single_byte(k: Seq<char>)
    ensures
        (encode_utf8(k).len() == 1) <==> is_single_byte(k),
        encode_utf8(k).len() >= k.len(),
    decreases k.len(),
{
    if k.len() > 0 {
        lemma_single_byte(k.drop_first());
        let s = k[0] as u32;
        assert(encode_utf8(k) == encode_scalar(s) + encode_utf8(k.drop_first()));
        assert(encode_scalar(s).len() >= 1);
        assert((encode_scalar(s).len() == 1) <==> s < 0x80) by {
            assert(has_width_1_encoding(s) <==> s <= 0x7F);
        }
    }
}

/// Whether the string slice is one ASCII character (one byte long).
pub fn single_byte_char(key: &str) -> (r: Option<char>)
    ensures
        r is Some <==> is_single_byte(key@),
        r matches Some(c) ==> key@ == seq![c],
{
    proof { lemma_single_byte(key@); }
    let b = key.as_bytes();
    if b.len() == 1 {
        let c = key.get_char(0);
        assert(key@ =~= seq![c]);
        Some(c)
    } else {
        None
    }
}

/// Whether the string slice is one character, and which.
pub fn single_char(key: &str) -> (r: Option<char>)
    ensures
        r is Some <==> key@.len() == 1,
        r matches Some(c) ==> key@ == seq![c],
{
    if key.unicode_len() == 1 {
        let c = key.get_char(0);
        assert(key@ =~= seq![c]);
        Some(c)
    } else {
        None
    }
}

/// The lower-case letter string for an upper-case ASCII letter.
fn lower_letter_str(c: char) -> (s: &'static str)
    requires
        'A' <= c <= 'Z',
    ensures
        s@ == seq![ascii_lower(c)],
{
    match c {
        'A' => { proof { reveal_strlit("a"); } "a" },
        'B' => { proof { reveal_strlit("b"); } "b" },
        'C' => { proof { reveal_strlit("c"); } "c" },
        'D' => { proof { reveal_strlit("d"); } "d" },
        'E' => { proof { reveal_strlit("e"); } "e" },
        'F' => { proof { reveal_strlit("f"); } "f" },
        'G' => { proof { reveal_strlit("g"); } "g" },
        'H' => { proof { reveal_strlit("h"); } "h" },
        'I' => { proof { reveal_strlit("i"); } "i" },
        'J' => { proof { reveal_strlit("j"); } "j" },
        'K' => { proof { reveal_strlit("k"); } "k" },
        'L' => { proof { reveal_strlit("l"); } "l" },
        'M' => { proof { reveal_strlit("m"); } "m" },
        'N' => { proof { reveal_strlit("n"); } "n" },
        'O' => { proof { reveal_strlit("o"); } "o" },
        'P' => { proof { reveal_strlit("p"); } "p" },
        'Q' => { proof { reveal_strlit("q"); } "q" },
        'R' => { proof { reveal_strlit("r"); } "r" },
        'S' => { proof { reveal_strlit("s"); } "s" },
        'T' => { proof { reveal_strlit("t"); } "t" },
        'U' => { proof { reveal_strlit("u"); } "u" },
        'V' => { proof { reveal_strlit("v"); } "v" },
        'W' => { proof { reveal_strlit("w"); } "w" },
        'X' => { proof { reveal_strlit("x"); } "x" },
        'Y' => { proof { reveal_strlit("y"); } "y" },
        _ => { proof { reveal_strlit("z"); } "z" },
    }
}

// ---------------------------------------------------------------------------
// X11 keycodes (direct XTEST input)
// ---------------------------------------------------------------------------

/// Keycode of a single-character key on the reference X11 keyboard layout.
pub open spec fn x11_char_keycode(c: char) -> u8 {
    match c {
        ' ' => 65,
        'a' | 'A' => 38, 'b' | 'B' => 56, 'c' | 'C' => 54, 'd' | 'D' => 40,
        'e' | 'E' => 26, 'f' | 'F' => 41, 'g' | 'G' => 42, 'h' | 'H' => 43,
        'i' | 'I' => 31, 'j' | 'J' => 44, 'k' | 'K' => 45, 'l' | 'L' => 46,
        'm' | 'M' => 58, 'n' | 'N' => 57, 'o' | 'O' => 32, 'p' | 'P' => 33,
        'q' | 'Q' => 24, 'r' | 'R' => 27, 's' | 'S' => 39, 't' | 'T' => 28,
        'u' | 'U' => 30, 'v' | 'V' => 55, 'w' | 'W' => 25, 'x' | 'X' => 53,
        'y' | 'Y' => 29, 'z' | 'Z' => 52,
        '0' => 19, '1' => 10, '2' => 11, '3' => 12, '4' => 13,
        '5' => 14, '6' => 15, '7' => 16, '8' => 17, '9' => 18,
        _ => 0,
    }
}

/// X11 keycode of a browser key name; 0 for keys without a mapping.
pub open spec fn x11_keycode(k: Seq<char>) -> u8 {
    if k == "Enter"@ { 36 }
    else if k == "Escape"@ { 9 }
    else if k == "Backspace"@ { 22 }
    else if k == "Tab"@ { 23 }
    else if k == "Shift"@ { 50 }
    else if k == "Control"@ { 37 }
    else if k == "Alt"@ { 64 }
    else if k == "Meta"@ { 133 }
    else if k == "ArrowUp"@ { 111 }
    else if k == "ArrowDown"@ { 116 }
    else if k == "ArrowLeft"@ { 113 }
    else if k == "ArrowRight"@ { 114 }
    else if k == "Delete"@ { 119 }
    else if k == "Home"@ { 110 }
    else if k == "End"@ { 115 }
    else if k == "PageUp"@ { 112 }
    else if k == "PageDown"@ { 117 }
    else if k.len() == 1 { x11_char_keycode(k[0]) }
    else { 0 }
}

fn char_keycode(c: char) -> (r: u8)
    ensures
        r == x11_char_keycode(c),
{
    match c {
        ' ' => 65,
        'a' | 'A' => 38, 'b' | 'B' => 56, 'c' | 'C' => 54, 'd' | 'D' => 40,
        'e' | 'E' => 26, 'f' | 'F' => 41, 'g' | 'G' => 42, 'h' | 'H' => 43,
        'i' | 'I' => 31, 'j' | 'J' => 44, 'k' | 'K' => 45, 'l' | 'L' => 46,
        'm' | 'M' => 58, 'n' | 'N' => 57, 'o' | 'O' => 32, 'p' | 'P' => 33,
        'q' | 'Q' => 24, 'r' | 'R' => 27, 's' | 'S' => 39, 't' | 'T' => 28,
        'u' | 'U' => 30, 'v' | 'V' => 55, 'w' | 'W' => 25, 'x' | 'X' => 53,
        'y' | 'Y' => 29, 'z' | 'Z' => 52,
        '0' => 19, '1' => 10, '2' => 11, '3' => 12, '4' => 13,
        '5' => 14, '6' => 15, '7' => 16, '8' => 17, '9' => 18,
        _ => 0,
    }
}

/// Maps a browser key name to an X11 keycode (simplified US layout);
/// unknown keys give 0.
pub fn map_key_to_keycode(key: &str) -> (r: u8)
    ensures
        r == x11_keycode(key@),
{
    if str_eq(key, "Enter") { 36 }
    else if str_eq(key, "Escape") { 9 }
    else if str_eq(key, "Backspace") { 22 }
    else if str_eq(key, "Tab") { 23 }
    else if str_eq(key, "Shift") { 50 }
    else if str_eq(key, "Control") { 37 }
    else if str_eq(key, "Alt") { 64 }
    else if str_eq(key, "Meta") { 133 }
    else if str_eq(key, "ArrowUp") { 111 }
    else if str_eq(key, "ArrowDown") { 116 }
    else if str_eq(key, "ArrowLeft") { 113 }
    else if str_eq(key, "ArrowRight") { 114 }
    else if str_eq(key, "Delete") { 119 }
    else if str_eq(key, "Home") { 110 }
    else if str_eq(key, "End") { 115 }
    else if str_eq(key, "PageUp") { 112 }
    else if str_eq(key, "PageDown") { 117 }
    else {
        match single_char(key) {
            Some(c) => char_keycode(c),
            None => 0,
        }
    }
}

// ---------------------------------------------------------------------------
// xdotool key names
// ---------------------------------------------------------------------------

/// xdotool key name of a browser key name. Named keys are renamed,
/// single ASCII characters are lower-cased, anything else passes through.
pub open spec fn xdotool_key_name(k: Seq<char>) -> Seq<char> {
    if k == "Enter"@ { "Return"@ }
    else if k == "Escape"@ { "Escape"@ }
    else if k == "Backspace"@ { "BackSpace"@ }
    else if k == "Tab"@ { "Tab"@ }
    else if k == "Shift"@ { "Shift_L"@ }
    else if k == "Control"@ { "Control_L"@ }
    else if k == "Alt"@ { "Alt_L"@ }
    else if k == "Meta"@ { "Super_L"@ }
    else if k == "ArrowUp"@ { "Up"@ }
    else if k == "ArrowDown"@ { "Down"@ }
    else if k == "ArrowLeft"@ { "Left"@ }
    else if k == "ArrowRight"@ { "Right"@ }
    else if k == "Delete"@ { "Delete"@ }
    else if k == "Home"@ { "Home"@ }
    else if k == "End"@ { "End"@ }
    else if k == "PageUp"@ { "Page_Up"@ }
    else if k == "PageDown"@ { "Page_Down"@ }
    else if k == " "@ { "space"@ }
    else if is_single_byte(k) { seq![ascii_lower(k[0])] }
    else { k }
}

/// The key names with a fixed X11 keycode.
pub open spec fn keycode_named_key(k: Seq<char>) -> bool {
    k == "Enter"@ || k == "Escape"@ || k == "Backspace"@ || k == "Tab"@ || k == "Shift"@
        || k == "Control"@ || k == "Alt"@ || k == "Meta"@ || k == "ArrowUp"@ || k == "ArrowDown"@
        || k == "ArrowLeft"@ || k == "ArrowRight"@ || k == "Delete"@ || k == "Home"@ || k == "End"@
        || k == "PageUp"@ || k == "PageDown"@
}

/// The characters with a keycode: space, ASCII letters and digits.
pub open spec fn keycode_char(c: char) -> bool {
    c == ' ' || ('a' <= c && c <= 'z') || ('A' <= c && c <= 'Z') || ('0' <= c && c <= '9')
}

/// A key as the keycode table tells keys apart: single characters without
/// their case, other names as they are.
pub open spec fn key_identity(k: Seq<char>) -> Seq<char> {
    if k.len() == 1 { seq![ascii_lower(k[0])] } else { k }
}

/// The keycode table: a key gets 0 exactly when it is neither a named key
/// nor a single space, letter or digit; every other key gets a code from 9
/// to 133; and two keys share a code only when they are the same key up to
/// the case of a letter.
pub proof fn lemma_keycode_table(k1: Seq<char>, k2: Seq<char>)
    ensures
        (x11_keycode(k1) == 0) == !(keycode_named_key(k1) || (k1.len() == 1 && keycode_char(k1[0]))),
        x11_keycode(k1) != 0 ==> 9 <= x11_keycode(k1) <= 133,
        x11_keycode(k1) != 0 && x11_keycode(k1) == x11_keycode(k2) ==> key_identity(k1) == key_identity(k2),
{
    reveal_strlit("Enter");
    reveal_strlit("Escape");
    reveal_strlit("Backspace");
    reveal_strlit("Tab");
    reveal_strlit("Shift");
    reveal_strlit("Control");
    reveal_strlit("Alt");
    reveal_strlit("Meta");
    reveal_strlit("ArrowUp");
    reveal_strlit("ArrowDown");
    reveal_strlit("ArrowLeft");
    reveal_strlit("ArrowRight");
    reveal_strlit("Delete");
    reveal_strlit("Home");
    reveal_strlit("End");
    reveal_strlit("PageUp");
    reveal_strlit("PageDown");
}

/// The named keys the keycode, keysym and UI tables tell apart, pairwise
/// different.
proof fn lemma_named_keys_differ()
    ensures
        "Alt"@ != "Tab"@, "End"@ != "Tab"@, "End"@ != "Alt"@, "Home"@ != "Meta"@,
        "Shift"@ != "Enter"@, "Delete"@ != "Escape"@, "PageUp"@ != "Escape"@,
        "PageUp"@ != "Delete"@, "ArrowUp"@ != "Control"@, "ArrowDown"@ != "Backspace"@,
        "ArrowLeft"@ != "Backspace"@, "ArrowLeft"@ != "ArrowDown"@,
{
    reveal_strlit("Alt");
    reveal_strlit("Tab");
    reveal_strlit("End");
    reveal_strlit("Home");
    reveal_strlit("Meta");
    reveal_strlit("Shift");
    reveal_strlit("Enter");
    reveal_strlit("Delete");
    reveal_strlit("Escape");
    reveal_strlit("PageUp");
    reveal_strlit("ArrowUp");
    reveal_strlit("Control");
    reveal_strlit("ArrowDown");
    reveal_strlit("Backspace");
    reveal_strlit("ArrowLeft");
    lemma_differ_at("Alt"@, "Tab"@, 0);
    lemma_differ_at("End"@, "Tab"@, 0);
    lemma_differ_at("End"@, "Alt"@, 0);
    lemma_differ_at("Home"@, "Meta"@, 0);
    lemma_differ_at("Shift"@, "Enter"@, 0);
    lemma_differ_at("Delete"@, "Escape"@, 0);
    lemma_differ_at("PageUp"@, "Escape"@, 0);
    lemma_differ_at("PageUp"@, "Delete"@, 0);
    lemma_differ_at("ArrowUp"@, "Control"@, 0);
    lemma_differ_at("ArrowDown"@, "Backspace"@, 0);
    lemma_differ_at("ArrowLeft"@, "Backspace"@, 0);
    lemma_differ_at("ArrowLeft"@, "ArrowDown"@, 5);
}

/// The X11 keycodes and xdotool names of the named keys, each key to the
/// code and name of the same key on the reference layout: Enter 36
/// (`Return`), Escape 9, Backspace 22 (`BackSpace`), Tab 23, Shift 50
/// (`Shift_L`), Control 37 (`Control_L`), Alt 64 (`Alt_L`), Meta 133
/// (`Super_L`), each arrow to the key of its own direction (ArrowUp 111
/// `Up`, ArrowDown 116 `Down`, ArrowLeft 113 `Left`, ArrowRight 114
/// `Right`), Delete 119, Home 110, End 115, PageUp 112 (`Page_Up`),
/// PageDown 117 (`Page_Down`).
pub proof fn lemma_named_keycodes_and_names()
    ensures
        x11_keycode("Enter"@) == 36, x11_keycode("Escape"@) == 9, x11_keycode("Backspace"@) == 22,
        x11_keycode("Tab"@) == 23, x11_keycode("Shift"@) == 50, x11_keycode("Control"@) == 37,
        x11_keycode("Alt"@) == 64, x11_keycode("Meta"@) == 133, x11_keycode("ArrowUp"@) == 111,
        x11_keycode("ArrowDown"@) == 116, x11_keycode("ArrowLeft"@) == 113,
        x11_keycode("ArrowRight"@) == 114, x11_keycode("Delete"@) == 119, x11_keycode("Home"@) == 110,
        x11_keycode("End"@) == 115, x11_keycode("PageUp"@) == 112, x11_keycode("PageDown"@) == 117,
        xdotool_key_name("Enter"@) == "Return"@, xdotool_key_name("Escape"@) == "Escape"@,
        xdotool_key_name("Backspace"@) == "BackSpace"@, xdotool_key_name("Tab"@) == "Tab"@,
        xdotool_key_name("Shift"@) == "Shift_L"@, xdotool_key_name("Control"@) == "Control_L"@,
        xdotool_key_name("Alt"@) == "Alt_L"@, xdotool_key_name("Meta"@) == "Super_L"@,
        xdotool_key_name("ArrowUp"@) == "Up"@, xdotool_key_name("ArrowDown"@) == "Down"@,
        xdotool_key_name("ArrowLeft"@) == "Left"@, xdotool_key_name("ArrowRight"@) == "Right"@,
        xdotool_key_name("Delete"@) == "Delete"@, xdotool_key_name("Home"@) == "Home"@,
        xdotool_key_name("End"@) == "End"@, xdotool_key_name("PageUp"@) == "Page_Up"@,
        xdotool_key_name("PageDown"@) == "Page_Down"@,
{
    lemma_named_key_lengths();
    lemma_named_keys_differ();
}

/// The keycodes of the single-character keys on the reference layout
/// (US QWERTY, evdev codes): each letter, in either case, gets the code of
/// its own key, each digit the code of its own key in the top row, and the
/// space bar 65; and the UI toolkit key of each letter (either case) is the
/// letter's own key, of each digit the digit's own key.
pub proof fn lemma_character_keys()
    ensures
        x11_char_keycode('a') == 38, x11_char_keycode('A') == 38, x11_char_keycode('b') == 56,
        x11_char_keycode('B') == 56, x11_char_keycode('c') == 54, x11_char_keycode('C') == 54,
        x11_char_keycode('d') == 40, x11_char_keycode('D') == 40, x11_char_keycode('e') == 26,
        x11_char_keycode('E') == 26, x11_char_keycode('f') == 41, x11_char_keycode('F') == 41,
        x11_char_keycode('g') == 42, x11_char_keycode('G') == 42, x11_char_keycode('h') == 43,
        x11_char_keycode('H') == 43, x11_char_keycode('i') == 31, x11_char_keycode('I') == 31,
        x11_char_keycode('j') == 44, x11_char_keycode('J') == 44, x11_char_keycode('k') == 45,
        x11_char_keycode('K') == 45, x11_char_keycode('l') == 46, x11_char_keycode('L') == 46,
        x11_char_keycode('m') == 58, x11_char_keycode('M') == 58, x11_char_keycode('n') == 57,
        x11_char_keycode('N') == 57, x11_char_keycode('o') == 32, x11_char_keycode('O') == 32,
        x11_char_keycode('p') == 33, x11_char_keycode('P') == 33, x11_char_keycode('q') == 24,
        x11_char_keycode('Q') == 24, x11_char_keycode('r') == 27, x11_char_keycode('R') == 27,
        x11_char_keycode('s') == 39, x11_char_keycode('S') == 39, x11_char_keycode('t') == 28,
        x11_char_keycode('T') == 28, x11_char_keycode('u') == 30, x11_char_keycode('U') == 30,
        x11_char_keycode('v') == 55, x11_char_keycode('V') == 55, x11_char_keycode('w') == 25,
        x11_char_keycode('W') == 25, x11_char_keycode('x') == 53, x11_char_keycode('X') == 53,
        x11_char_keycode('y') == 29, x11_char_keycode('Y') == 29, x11_char_keycode('z') == 52,
        x11_char_keycode('Z') == 52, x11_char_keycode('0') == 19, x11_char_keycode('1') == 10,
        x11_char_keycode('2') == 11, x11_char_keycode('3') == 12, x11_char_keycode('4') == 13,
        x11_char_keycode('5') == 14, x11_char_keycode('6') == 15, x11_char_keycode('7') == 16,
        x11_char_keycode('8') == 17, x11_char_keycode('9') == 18, x11_char_keycode(' ') == 65,
        ui_char_key('a') == Some(UiKey::A), ui_char_key('A') == Some(UiKey::A),
        ui_char_key('b') == Some(UiKey::B), ui_char_key('B') == Some(UiKey::B),
        ui_char_key('c') == Some(UiKey::C), ui_char_key('C') == Some(UiKey::C),
        ui_char_key('d') == Some(UiKey::D), ui_char_key('D') == Some(UiKey::D),
        ui_char_key('e') == Some(UiKey::E), ui_char_key('E') == Some(UiKey::E),
        ui_char_key('f') == Some(UiKey::F), ui_char_key('F') == Some(UiKey::F),
        ui_char_key('g') == Some(UiKey::G), ui_char_key('G') == Some(UiKey::G),
        ui_char_key('h') == Some(UiKey::H), ui_char_key('H') == Some(UiKey::H),
        ui_char_key('i') == Some(UiKey::I), ui_char_key('I') == Some(UiKey::I),
        ui_char_key('j') == Some(UiKey::J), ui_char_key('J') == Some(UiKey::J),
        ui_char_key('k') == Some(UiKey::K), ui_char_key('K') == Some(UiKey::K),
        ui_char_key('l') == Some(UiKey::L), ui_char_key('L') == Some(UiKey::L),
        ui_char_key('m') == Some(UiKey::M), ui_char_key('M') == Some(UiKey::M),
        ui_char_key('n') == Some(UiKey::N), ui_char_key('N') == Some(UiKey::N),
        ui_char_key('o') == Some(UiKey::O), ui_char_key('O') == Some(UiKey::O),
        ui_char_key('p') == Some(UiKey::P), ui_char_key('P') == Some(UiKey::P),
        ui_char_key('q') == Some(UiKey::Q), ui_char_key('Q') == Some(UiKey::Q),
        ui_char_key('r') == Some(UiKey::R), ui_char_key('R') == Some(UiKey::R),
        ui_char_key('s') == Some(UiKey::S), ui_char_key('S') == Some(UiKey::S),
        ui_char_key('t') == Some(UiKey::T), ui_char_key('T') == Some(UiKey::T),
        ui_char_key('u') == Some(UiKey::U), ui_char_key('U') == Some(UiKey::U),
        ui_char_key('v') == Some(UiKey::V), ui_char_key('V') == Some(UiKey::V),
        ui_char_key('w') == Some(UiKey::W), ui_char_key('W') == Some(UiKey::W),
        ui_char_key('x') == Some(UiKey::X), ui_char_key('X') == Some(UiKey::X),
        ui_char_key('y') == Some(UiKey::Y), ui_char_key('Y') == Some(UiKey::Y),
        ui_char_key('z') == Some(UiKey::Z), ui_char_key('Z') == Some(UiKey::Z),
        ui_char_key('0') == Some(UiKey::Num0), ui_char_key('1') == Some(UiKey::Num1),
        ui_char_key('2') == Some(UiKey::Num2), ui_char_key('3') == Some(UiKey::Num3),
        ui_char_key('4') == Some(UiKey::Num4), ui_char_key('5') == Some(UiKey::Num5),
        ui_char_key('6') == Some(UiKey::Num6), ui_char_key('7') == Some(UiKey::Num7),
        ui_char_key('8') == Some(UiKey::Num8), ui_char_key('9') == Some(UiKey::Num9),
{
}

/// Two strings that differ at a position are different.
proof fn lemma_differ_at(a: Seq<char>, b: Seq<char>, i: int)
    requires
        0 <= i < a.len(),
        0 <= i < b.len(),
        a[i] != b[i],
    ensures
        a != b,
{
}

/// The lengths of the named keys.
proof fn lemma_named_key_lengths()
    ensures
        "Enter"@.len() == 5,
        "Escape"@.len() == 6,
        "Backspace"@.len() == 9,
        "Tab"@.len() == 3,
        "Shift"@.len() == 5,
        "Control"@.len() == 7,
        "Alt"@.len() == 3,
        "Meta"@.len() == 4,
        "ArrowUp"@.len() == 7,
        "ArrowDown"@.len() == 9,
        "ArrowLeft"@.len() == 9,
        "ArrowRight"@.len() == 10,
        "Delete"@.len() == 6,
        "Home"@.len() == 4,
        "End"@.len() == 3,
        "PageUp"@.len() == 6,
        "PageDown"@.len() == 8,
{
    reveal_strlit("Enter");
    reveal_strlit("Escape");
    reveal_strlit("Backspace");
    reveal_strlit("Tab");
    reveal_strlit("Shift");
    reveal_strlit("Control");
    reveal_strlit("Alt");
    reveal_strlit("Meta");
    reveal_strlit("ArrowUp");
    reveal_strlit("ArrowDown");
    reveal_strlit("ArrowLeft");
    reveal_strlit("ArrowRight");
    reveal_strlit("Delete");
    reveal_strlit("Home");
    reveal_strlit("End");
    reveal_strlit("PageUp");
    reveal_strlit("PageDown");
}

/// The names xdotool gets for the named keys are none of the named keys
/// themselves, except those that keep their own name.
proof fn lemma_outputs_not_named()
    ensures
        !keycode_named_key("Return"@),
        !keycode_named_key("BackSpace"@),
        !keycode_named_key("Shift_L"@),
        !keycode_named_key("Control_L"@),
        !keycode_named_key("Alt_L"@),
        !keycode_named_key("Super_L"@),
        !keycode_named_key("Up"@),
        !keycode_named_key("Down"@),
        !keycode_named_key("Left"@),
        !keycode_named_key("Right"@),
        !keycode_named_key("Page_Up"@),
        !keycode_named_key("Page_Down"@),
        !keycode_named_key("space"@),
{
    lemma_named_key_lengths();
    reveal_strlit("Return");
    reveal_strlit("Escape");
    lemma_differ_at("Return"@, "Escape"@, 0);
    reveal_strlit("Delete");
    lemma_differ_at("Return"@, "Delete"@, 0);
    reveal_strlit("PageUp");
    lemma_differ_at("Return"@, "PageUp"@, 0);
    reveal_strlit("BackSpace");
    reveal_strlit("Backspace");
    lemma_differ_at("BackSpace"@, "Backspace"@, 4);
    reveal_strlit("ArrowDown");
    lemma_differ_at("BackSpace"@, "ArrowDown"@, 0);
    reveal_strlit("ArrowLeft");
    lemma_differ_at("BackSpace"@, "ArrowLeft"@, 0);
    reveal_strlit("Shift_L");
    reveal_strlit("Control");
    lemma_differ_at("Shift_L"@, "Control"@, 0);
    reveal_strlit("ArrowUp");
    lemma_differ_at("Shift_L"@, "ArrowUp"@, 0);
    reveal_strlit("Control_L");
    reveal_strlit("Backspace");
    lemma_differ_at("Control_L"@, "Backspace"@, 0);
    reveal_strlit("ArrowDown");
    lemma_differ_at("Control_L"@, "ArrowDown"@, 0);
    reveal_strlit("ArrowLeft");
    lemma_differ_at("Control_L"@, "ArrowLeft"@, 0);
    reveal_strlit("Alt_L");
    reveal_strlit("Enter");
    lemma_differ_at("Alt_L"@, "Enter"@, 0);
    reveal_strlit("Shift");
    lemma_differ_at("Alt_L"@, "Shift"@, 0);
    reveal_strlit("Super_L");
    reveal_strlit("Control");
    lemma_differ_at("Super_L"@, "Control"@, 0);
    reveal_strlit("ArrowUp");
    lemma_differ_at("Super_L"@, "ArrowUp"@, 0);
    reveal_strlit("Up");
    reveal_strlit("Down");
    reveal_strlit("Meta");
    lemma_differ_at("Down"@, "Meta"@, 0);
    reveal_strlit("Home");
    lemma_differ_at("Down"@, "Home"@, 0);
    reveal_strlit("Left");
    reveal_strlit("Meta");
    lemma_differ_at("Left"@, "Meta"@, 0);
    reveal_strlit("Home");
    lemma_differ_at("Left"@, "Home"@, 0);
    reveal_strlit("Right");
    reveal_strlit("Enter");
    lemma_differ_at("Right"@, "Enter"@, 0);
    reveal_strlit("Shift");
    lemma_differ_at("Right"@, "Shift"@, 0);
    reveal_strlit("Page_Up");
    reveal_strlit("Control");
    lemma_differ_at("Page_Up"@, "Control"@, 0);
    reveal_strlit("ArrowUp");
    lemma_differ_at("Page_Up"@, "ArrowUp"@, 0);
    reveal_strlit("Page_Down");
    reveal_strlit("Backspace");
    lemma_differ_at("Page_Down"@, "Backspace"@, 0);
    reveal_strlit("ArrowDown");
    lemma_differ_at("Page_Down"@, "ArrowDown"@, 0);
    reveal_strlit("ArrowLeft");
    lemma_differ_at("Page_Down"@, "ArrowLeft"@, 0);
    reveal_strlit("space");
    reveal_strlit("Enter");
    lemma_differ_at("space"@, "Enter"@, 0);
    reveal_strlit("Shift");
    lemma_differ_at("space"@, "Shift"@, 0);
}

/// A name of at least two characters that is none of the named keys is
/// passed to xdotool as it is.
proof fn lemma_plain_name(o: Seq<char>)
    requires
        o.len() >= 2,
        !keycode_named_key(o),
    ensures
        xdotool_key_name(o) == o,
{
    reveal_strlit(" ");
}

/// Naming a key for xdotool twice changes nothing more: a name xdotool
/// gets is already its own xdotool name.
pub proof fn lemma_xdotool_name_idempotent(k: Seq<char>)
    ensures
        xdotool_key_name(xdotool_key_name(k)) == xdotool_key_name(k),
{
    lemma_outputs_not_named();
    reveal_strlit(" ");
    reveal_strlit("space");
    if k == "Enter"@ {
        reveal_strlit("Return");
        lemma_plain_name("Return"@);
        assert(xdotool_key_name(k) == "Return"@);
    } else if k == "Escape"@ {
        reveal_strlit("Escape");
        assert(xdotool_key_name(k) == "Escape"@);
    } else if k == "Backspace"@ {
        reveal_strlit("BackSpace");
        lemma_plain_name("BackSpace"@);
        assert(xdotool_key_name(k) == "BackSpace"@);
    } else if k == "Tab"@ {
        reveal_strlit("Tab");
        assert(xdotool_key_name(k) == "Tab"@);
    } else if k == "Shift"@ {
        reveal_strlit("Shift_L");
        lemma_plain_name("Shift_L"@);
        assert(xdotool_key_name(k) == "Shift_L"@);
    } else if k == "Control"@ {
        reveal_strlit("Control_L");
        lemma_plain_name("Control_L"@);
        assert(xdotool_key_name(k) == "Control_L"@);
    } else if k == "Alt"@ {
        reveal_strlit("Alt_L");
        lemma_plain_name("Alt_L"@);
        assert(xdotool_key_name(k) == "Alt_L"@);
    } else if k == "Meta"@ {
        reveal_strlit("Super_L");
        lemma_plain_name("Super_L"@);
        assert(xdotool_key_name(k) == "Super_L"@);
    } else if k == "ArrowUp"@ {
        reveal_strlit("Up");
        lemma_plain_name("Up"@);
        assert(xdotool_key_name(k) == "Up"@);
    } else if k == "ArrowDown"@ {
        reveal_strlit("Down");
        lemma_plain_name("Down"@);
        assert(xdotool_key_name(k) == "Down"@);
    } else if k == "ArrowLeft"@ {
        reveal_strlit("Left");
        lemma_plain_name("Left"@);
        assert(xdotool_key_name(k) == "Left"@);
    } else if k == "ArrowRight"@ {
        reveal_strlit("Right");
        lemma_plain_name("Right"@);
        assert(xdotool_key_name(k) == "Right"@);
    } else if k == "Delete"@ {
        reveal_strlit("Delete");
        assert(xdotool_key_name(k) == "Delete"@);
    } else if k == "Home"@ {
        reveal_strlit("Home");
        assert(xdotool_key_name(k) == "Home"@);
    } else if k == "End"@ {
        reveal_strlit("End");
        assert(xdotool_key_name(k) == "End"@);
    } else if k == "PageUp"@ {
        reveal_strlit("Page_Up");
        lemma_plain_name("Page_Up"@);
        assert(xdotool_key_name(k) == "Page_Up"@);
    } else if k == "PageDown"@ {
        reveal_strlit("Page_Down");
        lemma_plain_name("Page_Down"@);
        assert(xdotool_key_name(k) == "Page_Down"@);
    } else if k == " "@ {
        lemma_plain_name("space"@);
    } else if is_single_byte(k) {
        let c = ascii_lower(k[0]);
        assert(xdotool_key_name(k) == seq![c]);
        assert(seq![c][0] == c);
        assert(ascii_lower(c) == c);
        assert(seq![c] != " "@) by {
            if c == ' ' { assert(k[0] == ' '); assert(k =~= " "@); }
        }
        lemma_single_char_not_named(c);
    } else {
        assert(xdotool_key_name(k) == k);
    }
}

/// No named key is a single character.
proof fn lemma_single_char_not_named(c: char)
    ensures
        !keycode_named_key(seq![c]),
{
    lemma_named_key_lengths();
}

/// Maps a browser key name to the key name xdotool expects.
pub fn map_key_to_xdotool(key: &str) -> (r: String)
    ensures
        r@ == xdotool_key_name(key@),
{
    if str_eq(key, "Enter") { String::from_str("Return") }
    else if str_eq(key, "Escape") { String::from_str("Escape") }
    else if str_eq(key, "Backspace") { String::from_str("BackSpace") }
    else if str_eq(key, "Tab") { String::from_str("Tab") }
    else if str_eq(key, "Shift") { String::from_str("Shift_L") }
    else if str_eq(key, "Control") { String::from_str("Control_L") }
    else if str_eq(key, "Alt") { String::from_str("Alt_L") }
    else if str_eq(key, "Meta") { String::from_str("Super_L") }
    else if str_eq(key, "ArrowUp") { String::from_str("Up") }
    else if str_eq(key, "ArrowDown") { String::from_str("Down") }
    else if str_eq(key, "ArrowLeft") { String::from_str("Left") }
    else if str_eq(key, "ArrowRight") { String::from_str("Right") }
    else if str_eq(key, "Delete") { String::from_str("Delete") }
    else if str_eq(key, "Home") { String::from_str("Home") }
    else if str_eq(key, "End") { String::from_str("End") }
    else if str_eq(key, "PageUp") { String::from_str("Page_Up") }
    else if str_eq(key, "PageDown") { String::from_str("Page_Down") }
    else if str_eq(key, " ") { String::from_str("space") }
    else {
        match single_byte_char(key) {
            Some(c) => {
                if 'A' <= c && c <= 'Z' {
                    String::from_str(lower_letter_str(c))
                } else {
                    String::from_str(key)
                }
            },
            None => String::from_str(key),
        }
    }
}

// ---------------------------------------------------------------------------
// X11 keysyms (keyboard input through the display's own keymap)
// ---------------------------------------------------------------------------

/// Whether a character is printable ASCII (ASCII and not a control character).
pub open spec fn is_printable_ascii(c: char) -> bool {
    0x20 <= (c as u32) && (c as u32) < 0x7F
}

/// X11 keysym of a browser key name. Named keys have fixed keysyms; a key
/// that is a single printable ASCII character maps to its code point (X11
/// keysyms of Latin-1 characters equal their code points); any other key
/// maps to nothing.
pub open spec fn x11_keysym(k: Seq<char>) -> Option<u32> {
    if k == "Enter"@ { Some(0xFF0Du32) }
    else if k == "Backspace"@ { Some(0xFF08u32) }
    else if k == "Tab"@ { Some(0xFF09u32) }
    else if k == "Escape"@ { Some(0xFF1Bu32) }
    else if k == "Delete"@ { Some(0xFFFFu32) }
    else if k == "ArrowLeft"@ { Some(0xFF51u32) }
    else if k == "ArrowUp"@ { Some(0xFF52u32) }
    else if k == "ArrowRight"@ { Some(0xFF53u32) }
    else if k == "ArrowDown"@ { Some(0xFF54u32) }
    else if k == " "@ { Some(0x0020u32) }
    else if k.len() == 1 && is_printable_ascii(k[0]) { Some(k[0] as u32) }
    else { None }
}

/// The X11 keysyms of the named keys, each key to the keysym of the same
/// key: Enter to `XK_Return` (0xFF0D), Backspace to `XK_BackSpace`
/// (0xFF08), Tab to `XK_Tab` (0xFF09), Escape to `XK_Escape` (0xFF1B),
/// Delete to `XK_Delete` (0xFFFF), and each arrow to the keysym of its own
/// direction: ArrowLeft to `XK_Left` (0xFF51), ArrowUp to `XK_Up`
/// (0xFF52), ArrowRight to `XK_Right` (0xFF53), ArrowDown to `XK_Down`
/// (0xFF54); a single printable ASCII character to its own code point.
/// And no two different keys share a keysym.
pub proof fn lemma_keysyms_of_named_keys(k1: Seq<char>, k2: Seq<char>)
    ensures
        x11_keysym("Enter"@) == Some(0xFF0Du32),
        x11_keysym("Backspace"@) == Some(0xFF08u32),
        x11_keysym("Tab"@) == Some(0xFF09u32),
        x11_keysym("Escape"@) == Some(0xFF1Bu32),
        x11_keysym("Delete"@) == Some(0xFFFFu32),
        x11_keysym("ArrowLeft"@) == Some(0xFF51u32),
        x11_keysym("ArrowUp"@) == Some(0xFF52u32),
        x11_keysym("ArrowRight"@) == Some(0xFF53u32),
        x11_keysym("ArrowDown"@) == Some(0xFF54u32),
        k1.len() == 1 && 0x20 <= (k1[0] as u32) < 0x7F ==> x11_keysym(k1) == Some(k1[0] as u32),
        x11_keysym(k1) is Some && x11_keysym(k1) == x11_keysym(k2) ==> k1 == k2,
{
    reveal_strlit("Enter");
    reveal_strlit("Backspace");
    reveal_strlit("Tab");
    reveal_strlit("Escape");
    reveal_strlit("Delete");
    reveal_strlit("ArrowLeft");
    reveal_strlit("ArrowUp");
    reveal_strlit("ArrowRight");
    reveal_strlit("ArrowDown");
    reveal_strlit(" ");
    lemma_named_key_lengths();
    assert(" "@.len() == 1);
    lemma_differ_at("Delete"@, "Escape"@, 0);
    lemma_differ_at("ArrowLeft"@, "Backspace"@, 0);
    lemma_differ_at("ArrowDown"@, "Backspace"@, 0);
    lemma_differ_at("ArrowDown"@, "ArrowLeft"@, 5);
    assert(" "@ =~= seq![' ']);
    if x11_keysym(k1) is Some && x11_keysym(k1) == x11_keysym(k2) {
        let v = x11_keysym(k1)->0;
        if k1.len() == 1 {
            assert(v < 0x7F);
        }
        if k2.len() == 1 {
            assert(v < 0x7F);
        }
        if k1.len() == 1 && k2.len() == 1 {
            assert(k1 =~= seq![k1[0]]);
            assert(k2 =~= seq![k2[0]]);
            assert(k1[0] as u32 == v);
            assert(k2[0] as u32 == v);
            char_u32_cast(k1[0], v);
            char_u32_cast(k2[0], v);
            assert(k1[0] == k2[0]);
            assert(k1 == k2);
        } else {
            assert(k1.len() != 1 && k2.len() != 1);
            assert(v >= 0xFF00);
            assert(k1 == k2);
        }
    }
}

/// Maps a browser key name to an X11 keysym.
pub fn browser_key_to_keysym(key: &str) -> (r: Option<u32>)
    ensures
        r == x11_keysym(key@),
{
    if str_eq(key, "Enter") { return Some(0xFF0D); }
    if str_eq(key, "Backspace") { return Some(0xFF08); }
    if str_eq(key, "Tab") { return Some(0xFF09); }
    if str_eq(key, "Escape") { return Some(0xFF1B); }
    if str_eq(key, "Delete") { return Some(0xFFFF); }
    if str_eq(key, "ArrowLeft") { return Some(0xFF51); }
    if str_eq(key, "ArrowUp") { return Some(0xFF52); }
    if str_eq(key, "ArrowRight") { return Some(0xFF53); }
    if str_eq(key, "ArrowDown") { return Some(0xFF54); }
    if str_eq(key, " ") { return Some(0x0020); }
    if key.unicode_len() != 1 {
        return None;
    }
    let c = key.get_char(0);
    let code = c as u32;
    if 0x20 <= code && code < 0x7F {
        Some(code)
    } else {
        None
    }
}

// ---------------------------------------------------------------------------
// Keys of the immediate-mode UI toolkit of native applications
// ---------------------------------------------------------------------------

/// The keys a native sandbox application's UI toolkit understands.
#[derive(Debug, Clone, Copy, PartialEq, Eq, Structural)]
pub enum UiKey {
    Enter, Escape, Backspace, Delete, Tab,
    ArrowLeft, ArrowRight, ArrowUp, ArrowDown,
    Home, End, PageUp, PageDown, Space,
    A, B, C, D, E, F, G, H, I, J, K, L, M,
    N, O, P, Q, R, S, T, U, V, W, X, Y, Z,
    Num0, Num1, Num2, Num3, Num4, Num5, Num6, Num7, Num8, Num9,
}

/// UI key of a single character: letters (either case) and digits.
pub open spec fn ui_char_key(c: char) -> Option<UiKey> {
    match c {
        'a' | 'A' => Some(UiKey::A), 'b' | 'B' => Some(UiKey::B),
        'c' | 'C' => Some(UiKey::C), 'd' | 'D' => Some(UiKey::D),
        'e' | 'E' => Some(UiKey::E), 'f' | 'F' => Some(UiKey::F),
        'g' | 'G' => Some(UiKey::G), 'h' | 'H' => Some(UiKey::H),
        'i' | 'I' => Some(UiKey::I), 'j' | 'J' => Some(UiKey::J),
        'k' | 'K' => Some(UiKey::K), 'l' | 'L' => Some(UiKey::L),
        'm' | 'M' => Some(UiKey::M), 'n' | 'N' => Some(UiKey::N),
        'o' | 'O' => Some(UiKey::O), 'p' | 'P' => Some(UiKey::P),
        'q' | 'Q' => Some(UiKey::Q), 'r' | 'R' => Some(UiKey::R),
        's' | 'S' => Some(UiKey::S), 't' | 'T' => Some(UiKey::T),
        'u' | 'U' => Some(UiKey::U), 'v' | 'V' => Some(UiKey::V),
        'w' | 'W' => Some(UiKey::W), 'x' | 'X' => Some(UiKey::X),
        'y' | 'Y' => Some(UiKey::Y), 'z' | 'Z' => Some(UiKey::Z),
        '0' => Some(UiKey::Num0), '1' => Some(UiKey::Num1),
        '2' => Some(UiKey::Num2), '3' => Some(UiKey::Num3),
        '4' => Some(UiKey::Num4), '5' => Some(UiKey::Num5),
        '6' => Some(UiKey::Num6), '7' => Some(UiKey::Num7),
        '8' => Some(UiKey::Num8), '9' => Some(UiKey::Num9),
        _ => None,
    }
}

/// UI key of a browser key name, if the toolkit has one.
pub open spec fn ui_key(k: Seq<char>) -> Option<UiKey> {
    if k == "Enter"@ { Some(UiKey::Enter) }
    else if k == "Escape"@ { Some(UiKey::Escape) }
    else if k == "Backspace"@ { Some(UiKey::Backspace) }
    else if k == "Delete"@ { Some(UiKey::Delete) }
    else if k == "Tab"@ { Some(UiKey::Tab) }
    else if k == "ArrowLeft"@ { Some(UiKey::ArrowLeft) }
    else if k == "ArrowRight"@ { Some(UiKey::ArrowRight) }
    else if k == "ArrowUp"@ { Some(UiKey::ArrowUp) }
    else if k == "ArrowDown"@ { Some(UiKey::ArrowDown) }
    else if k == "Home"@ { Some(UiKey::Home) }
    else if k == "End"@ { Some(UiKey::End) }
    else if k == "PageUp"@ { Some(UiKey::PageUp) }
    else if k == "PageDown"@ { Some(UiKey::PageDown) }
    else if k == "Space"@ || k == " "@ { Some(UiKey::Space) }
    else if k.len() == 1 { ui_char_key(k[0]) }
    else { None }
}

/// The UI keys of the named browser keys, each to the toolkit key of the
/// same name: Enter, Escape, Backspace, Delete, Tab, Home, End, PageUp,
/// PageDown, Space (also the key " "), and each arrow to the arrow of its
/// own direction. Conversely an arrow, Home, End, PageUp or PageDown UI key
/// comes only from the browser key of that name.
pub proof fn lemma_ui_keys_of_named_keys(k: Seq<char>)
    ensures
        ui_key("Enter"@) == Some(UiKey::Enter),
        ui_key("Escape"@) == Some(UiKey::Escape),
        ui_key("Backspace"@) == Some(UiKey::Backspace),
        ui_key("Delete"@) == Some(UiKey::Delete),
        ui_key("Tab"@) == Some(UiKey::Tab),
        ui_key("ArrowLeft"@) == Some(UiKey::ArrowLeft),
        ui_key("ArrowRight"@) == Some(UiKey::ArrowRight),
        ui_key("ArrowUp"@) == Some(UiKey::ArrowUp),
        ui_key("ArrowDown"@) == Some(UiKey::ArrowDown),
        ui_key("Home"@) == Some(UiKey::Home),
        ui_key("End"@) == Some(UiKey::End),
        ui_key("PageUp"@) == Some(UiKey::PageUp),
        ui_key("PageDown"@) == Some(UiKey::PageDown),
        ui_key("Space"@) == Some(UiKey::Space),
        ui_key(" "@) == Some(UiKey::Space),
        ui_key(k) == Some(UiKey::ArrowLeft) ==> k == "ArrowLeft"@,
        ui_key(k) == Some(UiKey::ArrowRight) ==> k == "ArrowRight"@,
        ui_key(k) == Some(UiKey::ArrowUp) ==> k == "ArrowUp"@,
        ui_key(k) == Some(UiKey::ArrowDown) ==> k == "ArrowDown"@,
        ui_key(k) == Some(UiKey::Home) ==> k == "Home"@,
        ui_key(k) == Some(UiKey::End) ==> k == "End"@,
        ui_key(k) == Some(UiKey::PageUp) ==> k == "PageUp"@,
        ui_key(k) == Some(UiKey::PageDown) ==> k == "PageDown"@,
{
    reveal_strlit("Enter");
    reveal_strlit("Escape");
    reveal_strlit("Backspace");
    reveal_strlit("Delete");
    reveal_strlit("Tab");
    reveal_strlit("ArrowLeft");
    reveal_strlit("ArrowRight");
    reveal_strlit("ArrowUp");
    reveal_strlit("ArrowDown");
    reveal_strlit("Home");
    reveal_strlit("End");
    reveal_strlit("PageUp");
    reveal_strlit("PageDown");
    reveal_strlit("Space");
    reveal_strlit(" ");
    lemma_named_key_lengths();
    assert(" "@.len() == 1 && "Space"@.len() == 5);
    lemma_differ_at("Delete"@, "Escape"@, 0);
    lemma_differ_at("ArrowLeft"@, "Backspace"@, 0);
    lemma_differ_at("ArrowDown"@, "Backspace"@, 0);
    lemma_differ_at("ArrowDown"@, "ArrowLeft"@, 5);
    lemma_differ_at("End"@, "Tab"@, 0);
    lemma_differ_at("PageUp"@, "Escape"@, 0);
    lemma_differ_at("PageUp"@, "Delete"@, 0);
    lemma_differ_at("Space"@, "Enter"@, 0);
}

fn char_ui_key(c: char) -> (r: Option<UiKey>)
    ensures
        r == ui_char_key(c),
{
    match c {
        'a' | 'A' => Some(UiKey::A), 'b' | 'B' => Some(UiKey::B),
        'c' | 'C' => Some(UiKey::C), 'd' | 'D' => Some(UiKey::D),
        'e' | 'E' => Some(UiKey::E), 'f' | 'F' => Some(UiKey::F),
        'g' | 'G' => Some(UiKey::G), 'h' | 'H' => Some(UiKey::H),
        'i' | 'I' => Some(UiKey::I), 'j' | 'J' => Some(UiKey::J),
        'k' | 'K' => Some(UiKey::K), 'l' | 'L' => Some(UiKey::L),
        'm' | 'M' => Some(UiKey::M), 'n' | 'N' => Some(UiKey::N),
        'o' | 'O' => Some(UiKey::O), 'p' | 'P' => Some(UiKey::P),
        'q' | 'Q' => Some(UiKey::Q), 'r' | 'R' => Some(UiKey::R),
        's' | 'S' => Some(UiKey::S), 't' | 'T' => Some(UiKey::T),
        'u' | 'U' => Some(UiKey::U), 'v' | 'V' => Some(UiKey::V),
        'w' | 'W' => Some(UiKey::W), 'x' | 'X' => Some(UiKey::X),
        'y' | 'Y' => Some(UiKey::Y), 'z' | 'Z' => Some(UiKey::Z),
        '0' => Some(UiKey::Num0), '1' => Some(UiKey::Num1),
        '2' => Some(UiKey::Num2), '3' => Some(UiKey::Num3),
        '4' => Some(UiKey::Num4), '5' => Some(UiKey::Num5),
        '6' => Some(UiKey::Num6), '7' => Some(UiKey::Num7),
        '8' => Some(UiKey::Num8), '9' => Some(UiKey::Num9),
        _ => None,
    }
}

/// Maps a browser key name to the UI toolkit's key, if there is one.
pub fn map_key_to_ui_key(key: &str) -> (r: Option<UiKey>)
    ensures
        r == ui_key(key@),
{
    if str_eq(key, "Enter") { Some(UiKey::Enter) }
    else if str_eq(key, "Escape") { Some(UiKey::Escape) }
    else if str_eq(key, "Backspace") { Some(UiKey::Backspace) }
    else if str_eq(key, "Delete") { Some(UiKey::Delete) }
    else if str_eq(key, "Tab") { Some(UiKey::Tab) }
    else if str_eq(key, "ArrowLeft") { Some(UiKey::ArrowLeft) }
    else if str_eq(key, "ArrowRight") { Some(UiKey::ArrowRight) }
    else if str_eq(key, "ArrowUp") { Some(UiKey::ArrowUp) }
    else if str_eq(key, "ArrowDown") { Some(UiKey::ArrowDown) }
    else if str_eq(key, "Home") { Some(UiKey::Home) }
    else if str_eq(key, "End") { Some(UiKey::End) }
    else if str_eq(key, "PageUp") { Some(UiKey::PageUp) }
    else if str_eq(key, "PageDown") { Some(UiKey::PageDown) }
    else if str_eq(key, "Space") || str_eq(key, " ") { Some(UiKey::Space) }
    else {
        match single_char(key) {
            Some(c) => char_ui_key(c),
            None => None,
        }
    }
}

/// The input events a key message produces in a native application's UI:
/// the key itself when the toolkit knows it, and, on a press of a
/// one-byte key, the key's text.
#[derive(Debug)]
pub struct KeyInputs {
    pub key: Option<UiKey>,
    pub text: Option<String>,
}

/// Turns one key message (name, pressed) into UI input events.
pub fn key_event_inputs(key: &str, pressed: bool) -> (r: KeyInputs)
    ensures
        r.key == ui_key(key@),
        r.text is Some <==> (pressed && is_single_byte(key@)),
        r.text matches Some(t) ==> t@ == key@,
{
    let k = map_key_to_ui_key(key);
    let text = if pressed {
        match single_byte_char(key) {
            Some(_) => Some(String::from_str(key)),
            None => None,
        }
    } else {
        None
    };
    KeyInputs { key: k, text }
}

} // verus!
