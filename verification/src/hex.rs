//! Lower-case hexadecimal text for binary identifiers (WebAuthn credential
//! ids are stored as text in the credential table).

use vstd::prelude::*;
use vstd::utf8::*;
use vstd::string::StringSliceAdditionalSpecFns;

verus! {

broadcast use vstd::string::group_string_axioms;

/// The lower-case hexadecimal digit of a value below 16.
pub open spec fn hex_digit(d: nat) -> char {
    if d == 0 { '0' } else if d == 1 { '1' } else if d == 2 { '2' } else if d == 3 { '3' }
    else if d == 4 { '4' } else if d == 5 { '5' } else if d == 6 { '6' } else if d == 7 { '7' }
    else if d == 8 { '8' } else if d == 9 { '9' } else if d == 10 { 'a' } else if d == 11 { 'b' }
    else if d == 12 { 'c' } else if d == 13 { 'd' } else if d == 14 { 'e' } else { 'f' }
}

/// Two lower-case hex digits per byte (`{:02x}` of each byte, in order).
pub open spec fn hex_of(b: Seq<u8>) -> Seq<char> {
    Seq::new(2 * b.len(), |i: int|
        if i % 2 == 0 { hex_digit((b[i / 2] / 16) as nat) } else { hex_digit((b[i / 2] % 16) as nat) })
}

/// The value of a hexadecimal digit byte (either case).
pub open spec fn hex_value(c: u8) -> Option<u8> {
    if 0x30 <= c <= 0x39 { Some((c - 0x30) as u8) }
    else if 0x61 <= c <= 0x66 { Some((c - 0x61 + 10) as u8) }
    else if 0x41 <= c <= 0x46 { Some((c - 0x41 + 10) as u8) }
    else { None }
}

/// What `u8::from_str_radix(pair, 16)` gives for a two-byte text: two
/// digits, or a `+` sign followed by one digit.
pub open spec fn pair_value(c0: u8, c1: u8) -> Option<u8> {
    match (hex_value(c0), hex_value(c1)) {
        (Some(h), Some(l)) => Some((16 * h + l) as u8),
        (None, Some(l)) => if c0 == 0x2B { Some(l) } else { None },
        _ => None,
    }
}

/// Whether byte index `i` of a UTF-8 text is a character boundary (a
/// position at which a `str` may be sliced).
pub open spec fn at_boundary(b: Seq<u8>, i: int) -> bool {
    i == b.len() || (0 <= i < b.len() && !is_continuation_byte(b[i]))
}

/// Whether decoding the text (bytes `b`) from byte `i` on slices it out of
/// range or inside a character before it meets an invalid pair.
pub open spec fn hex_decode_panics(b: Seq<u8>, i: int) -> bool
    decreases b.len() - i,
{
    if i >= b.len() {
        false
    } else if i + 2 > b.len() || !at_boundary(b, i) || !at_boundary(b, i + 2) {
        true
    } else if pair_value(b[i], b[i + 1]) is None {
        false
    } else {
        hex_decode_panics(b, i + 2)
    }
}

/// The bytes decoded from the text (bytes `b`) from byte `i` on, pair by
/// pair, or `None` when a pair is not a valid hexadecimal number.
pub open spec fn hex_decode(b: Seq<u8>, i: int) -> Option<Seq<u8>>
    decreases b.len() - i,
{
    if i >= b.len() {
        Some(seq![])
    } else if i + 2 > b.len() {
        None
    } else {
        match pair_value(b[i], b[i + 1]) {
            None => None,
            Some(v) => match hex_decode(b, i + 2) {
                Some(rest) => Some(seq![v] + rest),
                None => None,
            },
        }
    }
}

/// The hexadecimal digit as a one-character string slice.
fn hex_digit_str(d: u8) -> (s: &'static str)
    requires
        d < 16,
    ensures
        s@ == seq![hex_digit(d as nat)],
{
    match d {
        0 => { proof { reveal_strlit("0"); } "0" },
        1 => { proof { reveal_strlit("1"); } "1" },
        2 => { proof { reveal_strlit("2"); } "2" },
        3 => { proof { reveal_strlit("3"); } "3" },
        4 => { proof { reveal_strlit("4"); } "4" },
        5 => { proof { reveal_strlit("5"); } "5" },
        6 => { proof { reveal_strlit("6"); } "6" },
        7 => { proof { reveal_strlit("7"); } "7" },
        8 => { proof { reveal_strlit("8"); } "8" },
        9 => { proof { reveal_strlit("9"); } "9" },
        10 => { proof { reveal_strlit("a"); } "a" },
        11 => { proof { reveal_strlit("b"); } "b" },
        12 => { proof { reveal_strlit("c"); } "c" },
        13 => { proof { reveal_strlit("d"); } "d" },
        14 => { proof { reveal_strlit("e"); } "e" },
        _ => { proof { reveal_strlit("f"); } "f" },
    }
}

/// Renders bytes as lower-case hexadecimal text, two digits per byte.
pub fn bytes_to_hex(bytes: &[u8]) -> (s: String)
    ensures
        s@ == hex_of(bytes@),
{
    let mut s = String::new();
    let mut i: usize = 0;
    while i < bytes.len()
        invariant
            0 <= i <= bytes@.len(),
            s@ == hex_of(bytes@.subrange(0, i as int)),
        decreases bytes@.len() - i,
    {
        let b = bytes[i];
        s.append(hex_digit_str(b / 16));
        s.append(hex_digit_str(b % 16));
        i += 1;
        assert(s@ =~= hex_of(bytes@.subrange(0, i as int)));
    }
    assert(bytes@.subrange(0, bytes@.len() as int) =~= bytes@);
    s
}

fn hex_value_exec(c: u8) -> (r: Option<u8>)
    ensures
        r == hex_value(c),
{
    if 0x30 <= c && c <= 0x39 { Some(c - 0x30) }
    else if 0x61 <= c && c <= 0x66 { Some(c - 0x61 + 10) }
    else if 0x41 <= c && c <= 0x46 { Some(c - 0x41 + 10) }
    else { None }
}

fn pair_value_exec(c0: u8, c1: u8) -> (r: Option<u8>)
    ensures
        r == pair_value(c0, c1),
{
    match (hex_value_exec(c0), hex_value_exec(c1)) {
        (Some(h), Some(l)) => Some(16 * h + l),
        (None, Some(l)) => if c0 == 0x2B { Some(l) } else { None },
        _ => None,
    }
}

/// Parses hexadecimal text two characters at a time (each pair as
/// `u8::from_str_radix(pair, 16)` reads it). The first pair that is not a
/// number makes the whole parse fail with the message of the standard
/// library's `ParseIntError` for an invalid digit. Inputs on which the
/// pairwise slicing of the text would panic are excluded.
pub fn hex_to_bytes(hex: &str) -> (r: Result<Vec<u8>, String>)
    requires
        !hex_decode_panics(hex.spec_bytes(), 0),
    ensures
        match hex_decode(hex.spec_bytes(), 0) {
            Some(v) => r matches Ok(out) && out@ == v,
            None => r matches Err(msg) && msg@ == "invalid digit found in string"@,
        },
{
    let b = hex.as_bytes();
    let ghost bs = b@;
    let mut out: Vec<u8> = Vec::new();
    let mut i: usize = 0;
    while i < b.len()
        invariant
            bs == b@,
            bs == hex.spec_bytes(),
            i % 2 == 0,
            0 <= i <= bs.len() + 1,
            !hex_decode_panics(bs, i as int),
            hex_decode(bs, 0) == match hex_decode(bs, i as int) {
                Some(rest) => Some(out@ + rest),
                None => None::<Seq<u8>>,
            },
        decreases bs.len() - i,
    {
        assert(i + 2 <= bs.len());
        match pair_value_exec(b[i], b[i + 1]) {
            None => {
                return Err(String::from_str("invalid digit found in string"));
            },
            Some(v) => {
                let ghost before = out@;
                out.push(v);
                proof {
                    match hex_decode(bs, (i + 2) as int) {
                        Some(rest) => { assert(before + (seq![v] + rest) =~= out@ + rest); },
                        None => {},
                    }
                }
                i += 2;
            },
        }
    }
    assert(hex_decode(bs, i as int) == Some(Seq::<u8>::empty()));
    assert(out@ + Seq::<u8>::empty() =~= out@);
    Ok(out)
}

proof fn lemma_hex_digit(d: nat)
    requires
        d < 16,
    ensures
        '\0' <= hex_digit(d) <= '\u{7f}',
        hex_value(hex_digit(d) as u8) == Some(d as u8),
        !is_continuation_byte(hex_digit(d) as u8),
{
}

/// Reading back the hexadecimal text of any bytes gives the same bytes:
/// `hex_to_bytes(bytes_to_hex(b)) == Ok(b)` (and the parse never panics).
pub proof fn lemma_hex_roundtrip(b: Seq<u8>)
    ensures
        !hex_decode_panics(encode_utf8(hex_of(b)), 0),
        hex_decode(encode_utf8(hex_of(b)), 0) == Some(b),
{
    let h = hex_of(b);
    assert(is_ascii_chars(h)) by {
        assert forall|i: int| 0 <= i < h.len() implies '\0' <= #[trigger] h[i] <= '\u{7f}' by {
            if i % 2 == 0 { lemma_hex_digit((b[i / 2] / 16) as nat); }
            else { lemma_hex_digit((b[i / 2] % 16) as nat); }
        }
    }
    is_ascii_chars_encode_utf8(h);
    let e = encode_utf8(h);
    assert forall|i: int| 0 <= i < e.len() implies #[trigger] e[i] == h[i] as u8 by {}
    lemma_hex_walk(b, e, 0);
}

proof fn lemma_hex_walk(b: Seq<u8>, e: Seq<u8>, k: int)
    requires
        e.len() == 2 * b.len(),
        forall|i: int| 0 <= i < e.len() ==> #[trigger] e[i] == hex_of(b)[i] as u8,
        0 <= k <= b.len(),
    ensures
        !hex_decode_panics(e, 2 * k),
        hex_decode(e, 2 * k) == Some(b.subrange(k, b.len() as int)),
    decreases b.len() - k,
{
    if k < b.len() {
        lemma_hex_walk(b, e, k + 1);
        let hi = (b[k] / 16) as nat;
        let lo = (b[k] % 16) as nat;
        lemma_hex_digit(hi);
        lemma_hex_digit(lo);
        assert(e[2 * k] == hex_digit(hi) as u8);
        assert(e[2 * k + 1] == hex_digit(lo) as u8);
        assert(pair_value(e[2 * k], e[2 * k + 1]) == Some(b[k]));
        if 2 * k + 2 < e.len() {
            lemma_hex_digit((b[k + 1] / 16) as nat);
            assert(e[2 * k + 2] == hex_digit((b[k + 1] / 16) as nat) as u8);
        }
        assert(2 * k + 2 == 2 * (k + 1));
        assert(seq![b[k]] + b.subrange(k + 1, b.len() as int) =~= b.subrange(k, b.len() as int));
    } else {
        assert(b.subrange(k, b.len() as int) =~= Seq::<u8>::empty());
    }
}

} // verus!
