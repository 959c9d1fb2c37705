//! Synthetic X11 input (XTEST `fake_input` requests) for the virtual
//! display: which events a pointer or keyboard message turns into, and the
//! display's keysym-to-keycode table they rely on.

use vstd::prelude::*;
use std::collections::HashMap;
use crate::keys::{x11_keysym, browser_key_to_keysym, x11_keycode, map_key_to_keycode};

verus! {

broadcast use vstd::std_specs::hash::group_hash_axioms;

/// X11 core event type of a key press.
pub const KEY_PRESS: u8 = 2;
/// X11 core event type of a key release.
pub const KEY_RELEASE: u8 = 3;
/// X11 core event type of a button press.
pub const BUTTON_PRESS: u8 = 4;
/// X11 core event type of a button release.
pub const BUTTON_RELEASE: u8 = 5;
/// X11 core event type of pointer motion.
pub const MOTION_NOTIFY: u8 = 6;

/// A pointer position as an X11 request carries it: each coordinate cut
/// to 16 bits, as `as i16` does.
pub fn screen_position(x: i32, y: i32) -> (r: (i16, i16))
    ensures
        r == (x as i16, y as i16),
{
    (x as i16, y as i16)
}

/// One XTEST `fake_input` request: event type and detail (keycode or
/// button number).
#[derive(Debug, Clone, Copy, PartialEq, Eq, Structural)]
pub struct FakeInput {
    pub event_type: u8,
    pub detail: u8,
}

/// The button event of a mouse button message.
pub fn button_fake_input(button: u8, pressed: bool) -> (r: FakeInput)
    ensures
        r == (FakeInput { event_type: if pressed { BUTTON_PRESS } else { BUTTON_RELEASE }, detail: button }),
{
    FakeInput { event_type: if pressed { BUTTON_PRESS } else { BUTTON_RELEASE }, detail: button }
}

/// The key event of a key message on the fixed-keycode path: the key's
/// keycode on the reference layout, pressed or released.
pub fn keycode_fake_input(key: &str, pressed: bool) -> (r: FakeInput)
    ensures
        r == (FakeInput { event_type: if pressed { KEY_PRESS } else { KEY_RELEASE }, detail: x11_keycode(key@) }),
{
    FakeInput { event_type: if pressed { KEY_PRESS } else { KEY_RELEASE }, detail: map_key_to_keycode(key) }
}

/// Events of a key message given the key's table entry (keycode, whether
/// it needs Shift) and Shift's keycode. A press holds Shift first when
/// needed; a release lets the key go first, then Shift. Keys without an
/// entry produce nothing.
pub open spec fn key_events(entry: Option<(u8, bool)>, shift_keycode: u8, pressed: bool) -> Seq<FakeInput> {
    match entry {
        None => seq![],
        Some((kc, needs_shift)) => {
            if pressed {
                if needs_shift {
                    seq![FakeInput { event_type: KEY_PRESS, detail: shift_keycode },
                         FakeInput { event_type: KEY_PRESS, detail: kc }]
                } else {
                    seq![FakeInput { event_type: KEY_PRESS, detail: kc }]
                }
            } else {
                if needs_shift {
                    seq![FakeInput { event_type: KEY_RELEASE, detail: kc },
                         FakeInput { event_type: KEY_RELEASE, detail: shift_keycode }]
                } else {
                    seq![FakeInput { event_type: KEY_RELEASE, detail: kc }]
                }
            }
        },
    }
}

/// The table entry of a browser key name: its keysym's entry, if any.
pub open spec fn key_entry(table: Map<u32, (u8, bool)>, key: Seq<char>) -> Option<(u8, bool)> {
    match x11_keysym(key) {
        Some(sym) => if table.contains_key(sym) { Some(table[sym]) } else { None },
        None => None,
    }
}

/// The XTEST events of a key message on the virtual display.
pub fn keyboard_fake_inputs(
    keysym_map: &HashMap<u32, (u8, bool)>,
    shift_keycode: u8,
    key: &str,
    pressed: bool,
) -> (r: Vec<FakeInput>)
    ensures
        r@ == key_events(key_entry(keysym_map@, key@), shift_keycode, pressed),
{
    let mut out: Vec<FakeInput> = Vec::new();
    let keysym = match browser_key_to_keysym(key) {
        Some(s) => s,
        None => return out,
    };
    let (keycode, needs_shift) = match keysym_map.get(&keysym) {
        Some(e) => *e,
        None => return out,
    };
    if pressed {
        if needs_shift {
            out.push(FakeInput { event_type: KEY_PRESS, detail: shift_keycode });
        }
        out.push(FakeInput { event_type: KEY_PRESS, detail: keycode });
    } else {
        out.push(FakeInput { event_type: KEY_RELEASE, detail: keycode });
        if needs_shift {
            out.push(FakeInput { event_type: KEY_RELEASE, detail: shift_keycode });
        }
    }
    assert(out@ =~= key_events(key_entry(keysym_map@, key@), shift_keycode, pressed));
    out
}

/// A press event turned into the matching release event.
pub open spec fn as_release(e: FakeInput) -> FakeInput {
    FakeInput { event_type: if e.event_type == KEY_PRESS { KEY_RELEASE } else { e.event_type }, detail: e.detail }
}

/// Releasing a key undoes pressing it, in reverse order: the release
/// events are the press events, last first, each turned into a release.
pub proof fn lemma_release_mirrors_press(entry: Option<(u8, bool)>, shift_keycode: u8)
    ensures
        key_events(entry, shift_keycode, false)
            == key_events(entry, shift_keycode, true).reverse().map_values(|e: FakeInput| as_release(e)),
{
    let p = key_events(entry, shift_keycode, true);
    let r = key_events(entry, shift_keycode, false);
    assert(r =~= p.reverse().map_values(|e: FakeInput| as_release(e)));
}

// ---------------------------------------------------------------------------
// The display's keysym table
// ---------------------------------------------------------------------------

/// The keysym table of a keyboard mapping (keycodes from `min_keycode`,
/// `per` keysyms per keycode, all keysyms in order), built from its first
/// `n` keysyms: each keycode's first keysym gives (keycode, no Shift), its
/// second (keycode, Shift); a keysym keeps its earliest entry, and the
/// empty keysym 0 gets none.
pub open spec fn keysym_table(min_keycode: u8, per: nat, syms: Seq<u32>, n: nat) -> Map<u32, (u8, bool)>
    decreases n,
{
    if n == 0 || per == 0 {
        Map::empty()
    } else {
        let m = keysym_table(min_keycode, per, syms, (n - 1) as nat);
        let p = (n - 1) as int;
        let s = syms[p];
        if p % (per as int) < 2 && s != 0 && !m.contains_key(s) {
            m.insert(s, ((min_keycode + p / (per as int)) as u8, p % (per as int) == 1))
        } else {
            m
        }
    }
}

/// The keycode of Shift in a keysym table: that of `Shift_L` (0xFFE1),
/// or 50 when the table has none.
pub open spec fn shift_keycode_of(table: Map<u32, (u8, bool)>) -> u8 {
    if table.contains_key(0xFFE1u32) { table[0xFFE1u32].0 } else { 50 }
}

/// Position, in the keyboard mapping, of the keysym a table entry stands
/// for: its keycode's row, then column 0 (no Shift) or 1 (Shift).
pub open spec fn entry_position(min_keycode: u8, per: nat, entry: (u8, bool)) -> int {
    (entry.0 - min_keycode) * (per as int) + (if entry.1 { 1int } else { 0int })
}

/// The keysym table says exactly what the keyboard mapping says: every
/// entry points at a place of the mapping (first or second column) that
/// holds its keysym, and every non-empty keysym of those columns has an
/// entry, at its own place or an earlier one (the first place wins).
pub proof fn lemma_keysym_table_entries(min_keycode: u8, per: nat, syms: Seq<u32>, n: nat)
    requires
        per > 0,
        n <= syms.len(),
        n == 0 || min_keycode + (n - 1) / (per as int) <= 255,
    ensures
        forall|s: u32| #[trigger] keysym_table(min_keycode, per, syms, n).contains_key(s) ==> {
            let p = entry_position(min_keycode, per, keysym_table(min_keycode, per, syms, n)[s]);
            &&& 0 <= p < n
            &&& p % (per as int) < 2
            &&& syms[p] == s
            &&& s != 0
        },
        forall|p: int| 0 <= p < n && p % (per as int) < 2 && #[trigger] syms[p] != 0 ==> {
            &&& keysym_table(min_keycode, per, syms, n).contains_key(syms[p])
            &&& entry_position(min_keycode, per, keysym_table(min_keycode, per, syms, n)[syms[p]]) <= p
        },
    decreases n,
{
    if n == 0 {
        return;
    }
    let m = keysym_table(min_keycode, per, syms, (n - 1) as nat);
    let t = keysym_table(min_keycode, per, syms, n);
    let p = (n - 1) as int;
    let s = syms[p];
    let perm = per as int;
    if n >= 2 {
        vstd::arithmetic::div_mod::lemma_div_is_ordered(n - 2, n - 1, perm);
    }
    lemma_keysym_table_entries(min_keycode, per, syms, (n - 1) as nat);
    vstd::arithmetic::div_mod::lemma_fundamental_div_mod(p, perm);
    vstd::arithmetic::div_mod::lemma_mod_bound(p, perm);
    vstd::arithmetic::div_mod::lemma_div_pos_is_pos(p, perm);
    if p % perm < 2 && s != 0 && !m.contains_key(s) {
        let kc = (min_keycode + p / perm) as u8;
        assert(kc == min_keycode + p / perm);
        assert((kc - min_keycode) * perm + (if p % perm == 1 { 1int } else { 0int }) == p) by (nonlinear_arith)
            requires
                kc == min_keycode + p / perm,
                p == perm * (p / perm) + p % perm,
                0 <= p % perm < 2;
        assert(entry_position(min_keycode, per, (kc, p % perm == 1)) == p);
        assert(t == m.insert(s, (kc, p % perm == 1)));
        assert forall|q: int| 0 <= q < n && q % perm < 2 && #[trigger] syms[q] != 0 implies
            t.contains_key(syms[q]) && entry_position(min_keycode, per, t[syms[q]]) <= q by {
            if q < p && syms[q] == s {
                assert(m.contains_key(syms[q]));
            }
        }
    } else {
        assert(t == m);
        assert forall|q: int| 0 <= q < n && q % perm < 2 && #[trigger] syms[q] != 0 implies
            t.contains_key(syms[q]) && entry_position(min_keycode, per, t[syms[q]]) <= q by {
            if q == p {
                assert(m.contains_key(s));
            }
        }
    }
}

/// Builds the keysym table of a display's keyboard mapping and finds
/// Shift's keycode in it.
pub fn build_keysym_map(min_keycode: u8, keysyms_per_keycode: usize, keysyms: &Vec<u32>)
    -> (r: (HashMap<u32, (u8, bool)>, u8))
    requires
        keysyms_per_keycode > 0,
        keysyms@.len() == 0 || min_keycode + (keysyms@.len() - 1) / (keysyms_per_keycode as int) <= 255,
    ensures
        r.0@ == keysym_table(min_keycode, keysyms_per_keycode as nat, keysyms@, keysyms@.len()),
        r.1 == shift_keycode_of(r.0@),
{
    let per = keysyms_per_keycode;
    let mut map: HashMap<u32, (u8, bool)> = HashMap::new();
    let mut p: usize = 0;
    let mut chunk: usize = 0;
    let mut offset: usize = 0;
    while p < keysyms.len()
        invariant
            per == keysyms_per_keycode,
            per > 0,
            keysyms@.len() == 0 || min_keycode + (keysyms@.len() - 1) / (per as int) <= 255,
            0 <= p <= keysyms@.len(),
            offset < per,
            p == chunk * per + offset,
            map@ == keysym_table(min_keycode, per as nat, keysyms@, p as nat),
        decreases keysyms@.len() - p,
    {
        proof {
            vstd::arithmetic::div_mod::lemma_fundamental_div_mod_converse(p as int, per as int, chunk as int, offset as int);
            vstd::arithmetic::div_mod::lemma_div_is_ordered(p as int, (keysyms@.len() - 1) as int, per as int);
        }
        let kc = min_keycode + chunk as u8;
        let sym = keysyms[p];
        if offset < 2 && sym != 0 && !map.contains_key(&sym) {
            map.insert(sym, (kc, offset == 1));
        }
        p += 1;
        if offset + 1 == per {
            offset = 0;
            chunk += 1;
        } else {
            offset += 1;
        }
        assert(p == chunk * per + offset) by (nonlinear_arith)
            requires
                p == (chunk * per + offset) || (offset == 0 && p as int == (chunk as int - 1) * per + per),
                per > 0;
    }
    let shift = match map.get(&0xFFE1u32) {
        Some(e) => e.0,
        None => 50,
    };
    (map, shift)
}

} // verus!
