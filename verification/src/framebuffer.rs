//! Pixel work on a shared RGBA framebuffer (4 bytes per pixel, rows of
//! `width` pixels): clearing it to the background and drawing the pointer
//! crosshair.

use vstd::prelude::*;
use vstd::arithmetic::div_mod::{lemma_fundamental_div_mod, lemma_fundamental_div_mod_converse, lemma_mod_bound};

verus! {

/// Background colour component (dark grey) of a cleared framebuffer.
pub const BACKGROUND: u8 = 30;

/// The byte at position `i` of a cleared framebuffer of `len` bytes that
/// held `old` before: every complete pixel becomes opaque dark grey; a
/// trailing partial pixel is left as it was.
pub open spec fn cleared_byte(old: Seq<u8>, i: int) -> u8 {
    if i < (old.len() / 4) * 4 {
        if i % 4 == 3 { 255 } else { BACKGROUND }
    } else {
        old[i]
    }
}

/// Clears the framebuffer to opaque dark grey, pixel by pixel.
pub fn clear_framebuffer(fb: &mut [u8])
    ensures
        final(fb)@.len() == old(fb)@.len(),
        forall|i: int| 0 <= i < old(fb)@.len() ==> #[trigger] final(fb)@[i] == cleared_byte(old(fb)@, i),
{
    let ghost before = fb@;
    let n = fb.len() / 4;
    assert(4 * n <= fb.len());
    let mut c: usize = 0;
    while c < n
        invariant
            n == before.len() / 4,
            4 * n <= before.len(),
            before.len() == fb.len(),
            fb@.len() == before.len(),
            0 <= c <= n,
            forall|i: int| 0 <= i < before.len() ==> #[trigger] fb@[i]
                == if i < 4 * c { cleared_byte(before, i) } else { before[i] },
        decreases n - c,
    {
        assert(4 * c + 4 <= before.len()) by (nonlinear_arith)
            requires c < n, n == before.len() / 4;
        let base = 4 * c;
        fb[base] = BACKGROUND;
        fb[base + 1] = BACKGROUND;
        fb[base + 2] = BACKGROUND;
        fb[base + 3] = 255;
        c += 1;
        assert forall|i: int| 0 <= i < before.len() implies #[trigger] fb@[i]
            == if i < 4 * c { cleared_byte(before, i) } else { before[i] } by {
            if base <= i < base + 4 {
                lemma_fundamental_div_mod_converse(i, 4, (c - 1) as int, i - base);
            }
        }
    }
}

/// Whether a pixel offset from the pointer is on the crosshair: on the
/// horizontal or vertical arm, at most 10 pixels out.
pub open spec fn on_crosshair(dx: int, dy: int) -> bool {
    -10 <= dx <= 10 && -10 <= dy <= 10 && (dx == 0 || dy == 0)
}

/// Colour component (red, green and blue alike) of a crosshair pixel:
/// black within one pixel of the pointer, white further out.
pub open spec fn crosshair_shade(dx: int, dy: int) -> u8 {
    if -1 <= dx <= 1 && -1 <= dy <= 1 { 0 } else { 255 }
}

/// Whether the crosshair drawn at (cx, cy) covers the pixel of byte `i` in
/// a framebuffer of `len` bytes with rows of `width` pixels. Pixels are
/// drawn where their column is below `wl` and their row below `hl`: the
/// width and height as the drawing compares them, cut to `i32` (so a width
/// or height that does not fit draws nothing, or only what its low 32 bits
/// allow).
pub open spec fn crosshair_covers(cx: int, cy: int, width: int, wl: int, hl: int, len: int, i: int) -> bool {
    let q = i / 4;
    let px = q % width;
    let py = q / width;
    &&& px < wl
    &&& py < hl
    &&& on_crosshair(px - cx, py - cy)
    &&& 4 * q + 3 < len
}

/// Byte `i` after drawing the crosshair at (cx, cy) over `old`.
pub open spec fn crosshair_byte(old: Seq<u8>, cx: int, cy: int, width: int, wl: int, hl: int, i: int) -> u8 {
    if width > 0 && crosshair_covers(cx, cy, width, wl, hl, old.len() as int, i) {
        let q = i / 4;
        if i % 4 == 3 { 255 } else { crosshair_shade(q % width - cx, q / width - cy) }
    } else {
        old[i]
    }
}

/// Whether the offset (dx, dy) comes before (dx0, dy0) in drawing order
/// (row by row from dy = -10, each row from dx = -10).
pub open spec fn drawn_before(dx: int, dy: int, dx0: int, dy0: int) -> bool {
    dy < dy0 || (dy == dy0 && dx < dx0)
}

/// The byte after drawing the crosshair offsets that come before (dx0, dy0).
pub open spec fn partial_crosshair_byte(old: Seq<u8>, cx: int, cy: int, width: int, wl: int, hl: int,
    dx0: int, dy0: int, i: int) -> u8 {
    let q = i / 4;
    if width > 0 && crosshair_covers(cx, cy, width, wl, hl, old.len() as int, i)
        && drawn_before(q % width - cx, q / width - cy, dx0, dy0) {
        crosshair_byte(old, cx, cy, width, wl, hl, i)
    } else {
        old[i]
    }
}

/// Whether the bytes of pixel (px, py), in rows of `width` pixels, have
/// indices that fit in `usize`.
pub open spec fn index_fits(width: int, px: int, py: int) -> bool {
    (py * width + px) * 4 + 3 <= usize::MAX
}

/// Draws the pointer crosshair centred at pixel (cx, cy): a 21-pixel
/// horizontal and vertical arm, black within one pixel of the centre and
/// white beyond, opaque; pixels outside the framebuffer are skipped. The
/// width and height are compared as `i32` values (`as i32`).
pub fn draw_crosshair(fb: &mut [u8], width: usize, height: usize, cx: i32, cy: i32)
    requires
        forall|px: int, py: int|
            0 <= px < (width as i32) && 0 <= py < (height as i32) && on_crosshair(px - cx, py - cy)
                ==> #[trigger] index_fits(width as int, px, py),
        i32::MIN + 10 <= cx <= i32::MAX - 10,
        i32::MIN + 10 <= cy <= i32::MAX - 10,
    ensures
        final(fb)@.len() == old(fb)@.len(),
        forall|i: int| 0 <= i < old(fb)@.len() ==> #[trigger] final(fb)@[i]
            == crosshair_byte(old(fb)@, cx as int, cy as int, width as int,
                (width as i32) as int, (height as i32) as int, i),
{
    let ghost before = fb@;
    let ghost w = width as int;
    let wl: i32 = width as i32;
    let hl: i32 = height as i32;
    assert(wl >= 0 ==> wl as usize <= width) by (bit_vector)
        requires wl == width as i32;
    let mut dy: i32 = -10;
    while dy <= 10
        invariant
            forall|px: int, py: int|
                0 <= px < wl && 0 <= py < hl && on_crosshair(px - cx, py - cy)
                    ==> #[trigger] index_fits(width as int, px, py),
            wl == width as i32,
            hl == height as i32,
            wl >= 0 ==> wl <= w,
            i32::MIN + 10 <= cx <= i32::MAX - 10,
            i32::MIN + 10 <= cy <= i32::MAX - 10,
            -10 <= dy <= 11,
            w == width as int,
            fb@.len() == before.len(),
            forall|i: int| 0 <= i < before.len() ==> #[trigger] fb@[i]
                == partial_crosshair_byte(before, cx as int, cy as int, w, wl as int, hl as int, -10, dy as int, i),
        decreases 11 - dy,
    {
        let mut dx: i32 = -10;
        while dx <= 10
            invariant
                forall|px: int, py: int|
                    0 <= px < wl && 0 <= py < hl && on_crosshair(px - cx, py - cy)
                        ==> #[trigger] index_fits(width as int, px, py),
                wl == width as i32,
                hl == height as i32,
                wl >= 0 ==> wl <= w,
                i32::MIN + 10 <= cx <= i32::MAX - 10,
                i32::MIN + 10 <= cy <= i32::MAX - 10,
                -10 <= dy <= 10,
                -10 <= dx <= 11,
                w == width as int,
                fb@.len() == before.len(),
                forall|i: int| 0 <= i < before.len() ==> #[trigger] fb@[i]
                    == partial_crosshair_byte(before, cx as int, cy as int, w, wl as int, hl as int, dx as int, dy as int, i),
            decreases 11 - dx,
        {
            if dx == 0 || dy == 0 {
                let px = cx + dx;
                let py = cy + dy;
                if px >= 0 && px < wl && py >= 0 && py < hl {
                    assert(on_crosshair(px - cx, py - cy));
                    assert(index_fits(width as int, px as int, py as int));
                    assert(0 <= (py as int) * w <= (py as int) * w + (px as int)) by (nonlinear_arith)
                        requires 0 <= py, 0 <= px, 0 <= w;
                    let idx = (py as usize * width + px as usize) * 4;
                    if idx + 3 < fb.len() {
                        let shade: u8 = if -1 <= dx && dx <= 1 && -1 <= dy && dy <= 1 { 0 } else { 255 };
                        fb[idx] = shade;
                        fb[idx + 1] = shade;
                        fb[idx + 2] = shade;
                        fb[idx + 3] = 255;
                    }
                    proof {
                        let q = (py as int) * w + px as int;
                        assert forall|i: int| 0 <= i < before.len() implies #[trigger] fb@[i]
                            == partial_crosshair_byte(before, cx as int, cy as int, w, wl as int, hl as int, dx + 1, dy as int, i) by {
                            let qi = i / 4;
                            if w > 0 {
                                lemma_fundamental_div_mod(qi, w);
                                lemma_mod_bound(qi, w);
                            }
                            if qi == q {
                                lemma_fundamental_div_mod_converse(i, 4, q, i % 4);
                                lemma_fundamental_div_mod_converse(q, w, py as int, px as int);
                            } else if w > 0 && qi / w - cy == dy && qi % w - cx == dx {
                                let a = qi / w;
                                let b = qi % w;
                                assert(a == py as int && b == px as int);
                                assert(qi == q) by (nonlinear_arith)
                                    requires qi == w * a + b, a == py as int, b == px as int,
                                        q == (py as int) * w + (px as int);
                            }
                        }
                    }
                } else {
                    proof {
                        assert forall|i: int| 0 <= i < before.len() implies #[trigger] fb@[i]
                            == partial_crosshair_byte(before, cx as int, cy as int, w, wl as int, hl as int, dx + 1, dy as int, i) by {
                            let qi = i / 4;
                            if w > 0 {
                                lemma_fundamental_div_mod(qi, w);
                                lemma_mod_bound(qi, w);
                            }
                        }
                    }
                }
            }
            dx += 1;
        }
        proof {
            assert forall|i: int| 0 <= i < before.len() implies #[trigger] fb@[i]
                == partial_crosshair_byte(before, cx as int, cy as int, w, wl as int, hl as int, -10, dy + 1, i) by {
                let qi = i / 4;
                if w > 0 {
                    lemma_fundamental_div_mod(qi, w);
                    lemma_mod_bound(qi, w);
                }
            }
        }
        dy += 1;
    }
    proof {
        assert forall|i: int| 0 <= i < before.len() implies #[trigger] fb@[i]
            == crosshair_byte(before, cx as int, cy as int, w, wl as int, hl as int, i) by {
            let qi = i / 4;
            if w > 0 {
                lemma_fundamental_div_mod(qi, w);
                lemma_mod_bound(qi, w);
            }
        }
    }
}

} // verus!
