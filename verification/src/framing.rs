//! Wire framing of the control channel between the server and a native
//! sandbox application: each message is a 4-byte little-endian length
//! prefix followed by the message body (JSON text).

use vstd::prelude::*;

verus! {

/// Little-endian bytes of a 32-bit length.
pub open spec fn le_bytes(x: u32) -> Seq<u8> {
    seq![(x & 0xff) as u8, ((x >> 8) & 0xff) as u8, ((x >> 16) & 0xff) as u8, ((x >> 24) & 0xff) as u8]
}

/// The number encoded by 4 little-endian bytes.
pub open spec fn le_value(b: Seq<u8>) -> nat
    recommends
        b.len() >= 4,
{
    (b[0] as nat) + 256 * (b[1] as nat) + 65536 * (b[2] as nat) + 16777216 * (b[3] as nat)
}

/// The frame of a message body: the body's length, written as a `u32`
/// (so modulo 2^32) in little-endian order, then the body.
pub open spec fn frame_of(body: Seq<u8>) -> Seq<u8> {
    le_bytes(body.len() as u32) + body
}

/// The message bodies of all complete frames at the start of `buf`, in
/// order; decoding stops at the first incomplete frame.
#[verifier::opaque]
pub open spec fn decode_all(buf: Seq<u8>) -> Seq<Seq<u8>>
    decreases buf.len(),
{
    if buf.len() < 4 {
        seq![]
    } else {
        let n = le_value(buf) as int;
        if buf.len() < 4 + n {
            seq![]
        } else {
            seq![buf.subrange(4, 4 + n)] + decode_all(buf.subrange(4 + n, buf.len() as int))
        }
    }
}

/// The number of bytes taken by the complete frames at the start of `buf`.
#[verifier::opaque]
pub open spec fn consumed_len(buf: Seq<u8>) -> nat
    decreases buf.len(),
{
    if buf.len() < 4 {
        0
    } else {
        let n = le_value(buf) as int;
        if buf.len() < 4 + n {
            0
        } else {
            (4 + n + consumed_len(buf.subrange(4 + n, buf.len() as int))) as nat
        }
    }
}

/// The frames of a sequence of message bodies, one after the other.
pub open spec fn frames_of(bodies: Seq<Seq<u8>>) -> Seq<u8>
    decreases bodies.len(),
{
    if bodies.len() == 0 {
        seq![]
    } else {
        frame_of(bodies[0]) + frames_of(bodies.drop_first())
    }
}

proof fn lemma_le_roundtrip(x: u32)
    ensures
        le_value(le_bytes(x)) == x as nat,
{
    let b0 = (x & 0xff) as u8;
    let b1 = ((x >> 8) & 0xff) as u8;
    let b2 = ((x >> 16) & 0xff) as u8;
    let b3 = ((x >> 24) & 0xff) as u8;
    assert(b0 as u32 + 256u32 * (b1 as u32) + 65536u32 * (b2 as u32) + 16777216u32 * (b3 as u32) == x
        && b0 as u32 == (x & 0xff) && b1 as u32 == ((x >> 8) & 0xff)
        && b2 as u32 == ((x >> 16) & 0xff) && b3 as u32 == ((x >> 24) & 0xff)) by (bit_vector)
        requires
            b0 == (x & 0xff) as u8,
            b1 == ((x >> 8) & 0xff) as u8,
            b2 == ((x >> 16) & 0xff) as u8,
            b3 == ((x >> 24) & 0xff) as u8;
}

/// Decoding a frame gives back its body, and decoding continues right
/// after it: `decode_all(frame_of(b) + rest) == [b] + decode_all(rest)`
/// for every body shorter than 2^32 bytes.
pub proof fn lemma_frame_roundtrip(body: Seq<u8>, rest: Seq<u8>)
    requires
        body.len() < 0x1_0000_0000,
    ensures
        decode_all(frame_of(body) + rest) == seq![body] + decode_all(rest),
        consumed_len(frame_of(body) + rest) == 4 + body.len() + consumed_len(rest),
{
    reveal(decode_all);
    reveal(consumed_len);
    let buf = frame_of(body) + rest;
    lemma_le_roundtrip(body.len() as u32);
    assert(le_value(buf) == body.len()) by {
        assert(buf.subrange(0, 4) =~= le_bytes(body.len() as u32));
        assert(buf[0] == le_bytes(body.len() as u32)[0]);
        assert(buf[1] == le_bytes(body.len() as u32)[1]);
        assert(buf[2] == le_bytes(body.len() as u32)[2]);
        assert(buf[3] == le_bytes(body.len() as u32)[3]);
    }
    assert(buf.subrange(4, 4 + body.len() as int) =~= body);
    assert(buf.subrange(4 + body.len() as int, buf.len() as int) =~= rest);
}

/// Writing a sequence of messages and reading the stream back gives the
/// same messages, in order, and consumes the whole stream.
pub proof fn lemma_frames_roundtrip(bodies: Seq<Seq<u8>>)
    requires
        forall|i: int| 0 <= i < bodies.len() ==> (#[trigger] bodies[i]).len() < 0x1_0000_0000,
    ensures
        decode_all(frames_of(bodies)) == bodies,
        consumed_len(frames_of(bodies)) == frames_of(bodies).len(),
    decreases bodies.len(),
{
    if bodies.len() == 0 {
        reveal(decode_all);
        reveal(consumed_len);
        assert(decode_all(seq![]) =~= seq![]);
    } else {
        let tail = bodies.drop_first();
        assert forall|i: int| 0 <= i < tail.len() implies (#[trigger] tail[i]).len() < 0x1_0000_0000 by {
            assert(tail[i] == bodies[i + 1]);
        }
        lemma_frames_roundtrip(tail);
        assert(bodies[0].len() < 0x1_0000_0000);
        let f = frames_of(bodies);
        assert(f == frame_of(bodies[0]) + frames_of(tail));
        lemma_frame_roundtrip(bodies[0], frames_of(tail));
        assert(decode_all(f) == seq![bodies[0]] + tail);
        assert(seq![bodies[0]] + tail =~= bodies);
        assert(f.len() == frame_of(bodies[0]).len() + frames_of(tail).len());
    }
}

/// Reading a stream in pieces loses nothing: the messages of `buf` followed
/// by more bytes are the messages decoded from `buf`, then those decoded
/// from the bytes `buf` left over (its incomplete tail) followed by the new
/// bytes. So a reader that keeps the unconsumed tail and appends what
/// arrives next decodes the same messages as one that saw the whole stream.
pub proof fn lemma_decode_resumes(buf: Seq<u8>, more: Seq<u8>)
    ensures
        consumed_len(buf) <= buf.len(),
        decode_all(buf + more)
            == decode_all(buf) + decode_all(buf.subrange(consumed_len(buf) as int, buf.len() as int) + more),
    decreases buf.len(),
{
    reveal(decode_all);
    reveal(consumed_len);
    let whole = buf + more;
    if buf.len() < 4 {
        assert(buf.subrange(0, buf.len() as int) =~= buf);
        assert(decode_all(buf) =~= Seq::<Seq<u8>>::empty());
        assert(decode_all(buf) + decode_all(whole) =~= decode_all(whole));
    } else {
        let n = le_value(buf) as int;
        assert(le_value(whole) == le_value(buf)) by {
            assert(whole[0] == buf[0] && whole[1] == buf[1] && whole[2] == buf[2] && whole[3] == buf[3]);
        }
        if buf.len() < 4 + n {
            assert(buf.subrange(0, buf.len() as int) =~= buf);
            assert(decode_all(buf) =~= Seq::<Seq<u8>>::empty());
            assert(decode_all(buf) + decode_all(whole) =~= decode_all(whole));
        } else {
            let rest = buf.subrange(4 + n, buf.len() as int);
            lemma_decode_resumes(rest, more);
            assert(whole.subrange(4, 4 + n) =~= buf.subrange(4, 4 + n));
            assert(whole.subrange(4 + n, whole.len() as int) =~= rest + more);
            let c = consumed_len(rest) as int;
            assert(buf.subrange(consumed_len(buf) as int, buf.len() as int) =~= rest.subrange(c, rest.len() as int));
            assert(decode_all(whole) == seq![buf.subrange(4, 4 + n)] + decode_all(rest + more));
            assert(decode_all(buf) == seq![buf.subrange(4, 4 + n)] + decode_all(rest));
            assert(decode_all(whole) =~= decode_all(buf)
                + decode_all(buf.subrange(consumed_len(buf) as int, buf.len() as int) + more));
        }
    }
}

/// Encodes one message body as a frame (length prefix, then body).
pub fn encode_frame(body: &[u8]) -> (frame: Vec<u8>)
    ensures
        frame@ == frame_of(body@),
{
    let len = body.len() as u32;
    let mut frame: Vec<u8> = Vec::with_capacity(4);
    frame.push((len & 0xff) as u8);
    frame.push(((len >> 8) & 0xff) as u8);
    frame.push(((len >> 16) & 0xff) as u8);
    frame.push(((len >> 24) & 0xff) as u8);
    let mut i: usize = 0;
    while i < body.len()
        invariant
            0 <= i <= body@.len(),
            frame@ == le_bytes(len) + body@.subrange(0, i as int),
        decreases body@.len() - i,
    {
        frame.push(body[i]);
        i += 1;
        assert(frame@ =~= le_bytes(len) + body@.subrange(0, i as int));
    }
    assert(body@.subrange(0, body@.len() as int) =~= body@);
    frame
}

/// The body length announced by a frame's 4-byte header.
pub fn frame_body_len(header: &[u8]) -> (n: u32)
    requires
        header@.len() >= 4,
    ensures
        n as nat == le_value(header@),
{
    let b0 = header[0] as u32;
    let b1 = header[1] as u32;
    let b2 = header[2] as u32;
    let b3 = header[3] as u32;
    assert(b0 + 256 * b1 + 65536 * b2 + 16777216 * b3 < 0x1_0000_0000) by (nonlinear_arith)
        requires b0 < 256, b1 < 256, b2 < 256, b3 < 256;
    b0 + 256 * b1 + 65536 * b2 + 16777216 * b3
}

/// Splits a byte stream into the bodies of its complete frames, in order;
/// also returns how many bytes those frames take (a trailing incomplete
/// frame is left for later).
pub fn decode_frames(buf: &[u8]) -> (r: (Vec<Vec<u8>>, usize))
    ensures
        r.0@.len() == decode_all(buf@).len(),
        forall|i: int| 0 <= i < r.0@.len() ==> (#[trigger] r.0@[i])@ == decode_all(buf@)[i],
        r.1 as nat == consumed_len(buf@),
{
    reveal(decode_all);
    reveal(consumed_len);
    let mut bodies: Vec<Vec<u8>> = Vec::new();
    let mut pos: usize = 0;
    let ghost all = buf@;
    assert(all.subrange(0, all.len() as int) =~= all);
    assert(bodies@.map_values(|b: Vec<u8>| b@) =~= Seq::<Seq<u8>>::empty());
    loop
        invariant
            0 <= pos <= buf@.len(),
            all == buf@,
            decode_all(all) == bodies@.map_values(|b: Vec<u8>| b@) + decode_all(all.subrange(pos as int, all.len() as int)),
            consumed_len(all) == pos + consumed_len(all.subrange(pos as int, all.len() as int)),
        ensures
            decode_all(all.subrange(pos as int, all.len() as int)) =~= Seq::<Seq<u8>>::empty(),
            consumed_len(all.subrange(pos as int, all.len() as int)) == 0,
        decreases buf@.len() - pos,
    {
        proof {
            reveal(decode_all);
            reveal(consumed_len);
        }
        let ghost rest = all.subrange(pos as int, all.len() as int);
        if buf.len() - pos < 4 {
            assert(decode_all(rest) =~= seq![]);
            break;
        }
        let n = frame_body_len(slice_subrange_from(buf, pos)) as usize;
        assert(le_value(rest) == n) by {
            assert(rest[0] == buf@[pos as int]);
        }
        if buf.len() - pos - 4 < n {
            assert(decode_all(rest) =~= seq![]);
            break;
        }
        let start = pos + 4;
        let end = start + n;
        let body = vstd::slice::slice_to_vec(vstd::slice::slice_subrange(buf, start, end));
        proof {
            assert(rest.subrange(4, 4 + n as int) =~= body@);
            assert(rest.subrange(4 + n as int, rest.len() as int)
                =~= all.subrange((pos + 4 + n) as int, all.len() as int));
        }
        let ghost old_bodies = bodies@;
        bodies.push(body);
        proof {
            assert(bodies@.map_values(|b: Vec<u8>| b@) =~= old_bodies.map_values(|b: Vec<u8>| b@).push(body@));
        }
        pos = pos + 4 + n;
    }
    proof {
        assert(decode_all(all) =~= bodies@.map_values(|b: Vec<u8>| b@));
    }
    (bodies, pos)
}

/// The slice of `buf` from `start` on.
fn slice_subrange_from(buf: &[u8], start: usize) -> (r: &[u8])
    requires
        start <= buf@.len(),
    ensures
        r@ == buf@.subrange(start as int, buf@.len() as int),
{
    vstd::slice::slice_subrange(buf, start, buf.len())
}

} // verus!
