//! The overlay renderer: draws the timestamp text onto a pixel buffer in a
//! seven-segment style, matching the date-stamp aesthetic of analog film
//! cameras.
//!
//! Each glyph occupies a box three strokes wide and five strokes tall, where
//! a stroke is a fifth of the font size (at least one pixel). Digits light
//! the classic seven segments, `-` the middle bar, `:` two dots; any other
//! byte is blank. Glyphs that would not fit entirely inside the image are
//! clipped away whole; that a stamp may thus be partly or wholly absent on
//! tiny images is accepted boundary behaviour.
//!
//! Drawing is not idempotent in intent: running the overlay twice draws a
//! second stamp over the first (same pixels, same colour), and nothing here
//! claims otherwise.

use vstd::prelude::*;
use vstd::string::StringSliceAdditionalSpecFns;

use crate::pixel::{in_rect, fill_rect, PixelBuffer};

verus! {

/// Stroke thickness for a font size: a fifth of it, but at least one pixel.
pub open spec fn stroke(size: int) -> int {
    if size / 5 >= 1 {
        size / 5
    } else {
        1
    }
}

/// The box of segment `k` inside the glyph cell, in stroke units:
/// (column, row, width, height). Segments 0..=6 are the classic seven
/// segments (top, upper right, lower right, bottom, lower left, upper left,
/// middle); 7 and 8 are the two colon dots.
pub open spec fn seg_box(k: int) -> (int, int, int, int) {
    if k == 0 {
        (0, 0, 3, 1)
    } else if k == 1 {
        (2, 0, 1, 3)
    } else if k == 2 {
        (2, 2, 1, 3)
    } else if k == 3 {
        (0, 4, 3, 1)
    } else if k == 4 {
        (0, 2, 1, 3)
    } else if k == 5 {
        (0, 0, 1, 3)
    } else if k == 6 {
        (0, 2, 3, 1)
    } else if k == 7 {
        (1, 1, 1, 1)
    } else {
        (1, 3, 1, 1)
    }
}

/// Whether byte `b` lights segment `k`. Bytes 48..=57 are the digits, 45 is
/// `-`, 58 is `:`; every other byte lights nothing and renders blank.
pub open spec fn seg_on(b: u8, k: int) -> bool {
    if b == 48 {  // '0'
        k == 0 || k == 1 || k == 2 || k == 3 || k == 4 || k == 5
    } else if b == 49 {  // '1'
        k == 1 || k == 2
    } else if b == 50 {  // '2'
        k == 0 || k == 1 || k == 6 || k == 4 || k == 3
    } else if b == 51 {  // '3'
        k == 0 || k == 1 || k == 6 || k == 2 || k == 3
    } else if b == 52 {  // '4'
        k == 5 || k == 6 || k == 1 || k == 2
    } else if b == 53 {  // '5'
        k == 0 || k == 5 || k == 6 || k == 2 || k == 3
    } else if b == 54 {  // '6'
        k == 0 || k == 5 || k == 6 || k == 4 || k == 2 || k == 3
    } else if b == 55 {  // '7'
        k == 0 || k == 1 || k == 2
    } else if b == 56 {  // '8'
        0 <= k <= 6
    } else if b == 57 {  // '9'
        k == 0 || k == 1 || k == 2 || k == 3 || k == 5 || k == 6
    } else if b == 45 {  // '-'
        k == 6
    } else if b == 58 {  // ':'
        k == 7 || k == 8
    } else {
        false
    }
}

/// Whether `(px, py)` lies inside segment `k` of the glyph whose cell starts
/// at `(gx, gy)` with stroke `t`.
pub open spec fn in_seg(k: int, gx: int, gy: int, t: int, px: int, py: int) -> bool {
    let (cx, cy, cw, ch) = seg_box(k);
    gx + cx * t <= px < gx + (cx + cw) * t && gy + cy * t <= py < gy + (cy + ch) * t
}

/// Whether `(px, py)` is lit by one of the first `kk` segments of byte `b`'s
/// glyph.
pub open spec fn in_glyph_upto(b: u8, kk: int, gx: int, gy: int, t: int, px: int, py: int) -> bool {
    exists|k: int| 0 <= k < kk && seg_on(b, k) && #[trigger] in_seg(k, gx, gy, t, px, py)
}

/// Whether `(px, py)` is lit by byte `b`'s glyph at `(gx, gy)` with stroke `t`.
pub open spec fn in_glyph(b: u8, gx: int, gy: int, t: int, px: int, py: int) -> bool {
    in_glyph_upto(b, 9, gx, gy, t, px, py)
}

/// Whether byte `b` lights segment `k`.
fn seg_lit(b: u8, k: u8) -> (r: bool)
    ensures
        r == seg_on(b, k as int),
{
    if b == 48 {
        k == 0 || k == 1 || k == 2 || k == 3 || k == 4 || k == 5
    } else if b == 49 {
        k == 1 || k == 2
    } else if b == 50 {
        k == 0 || k == 1 || k == 6 || k == 4 || k == 3
    } else if b == 51 {
        k == 0 || k == 1 || k == 6 || k == 2 || k == 3
    } else if b == 52 {
        k == 5 || k == 6 || k == 1 || k == 2
    } else if b == 53 {
        k == 0 || k == 5 || k == 6 || k == 2 || k == 3
    } else if b == 54 {
        k == 0 || k == 5 || k == 6 || k == 4 || k == 2 || k == 3
    } else if b == 55 {
        k == 0 || k == 1 || k == 2
    } else if b == 56 {
        k <= 6
    } else if b == 57 {
        k == 0 || k == 1 || k == 2 || k == 3 || k == 5 || k == 6
    } else if b == 45 {
        k == 6
    } else if b == 58 {
        k == 7 || k == 8
    } else {
        false
    }
}

/// The box of segment `k`, in stroke units.
fn seg_cell(k: u8) -> (r: (u32, u32, u32, u32))
    requires
        k < 9,
    ensures
        (r.0 as int, r.1 as int, r.2 as int, r.3 as int) == seg_box(k as int),
        r.0 + r.2 <= 3,
        r.1 + r.3 <= 5,
        r.2 >= 1,
        r.3 >= 1,
{
    if k == 0 {
        (0, 0, 3, 1)
    } else if k == 1 {
        (2, 0, 1, 3)
    } else if k == 2 {
        (2, 2, 1, 3)
    } else if k == 3 {
        (0, 4, 3, 1)
    } else if k == 4 {
        (0, 2, 1, 3)
    } else if k == 5 {
        (0, 0, 1, 3)
    } else if k == 6 {
        (0, 2, 3, 1)
    } else if k == 7 {
        (1, 1, 1, 1)
    } else {
        (1, 3, 1, 1)
    }
}

/// Draws the glyph of byte `b` with its cell at `(gx, gy)`; pixels outside
/// the lit segments keep their value.
fn draw_glyph(buf: &mut PixelBuffer, b: u8, gx: u32, gy: u32, t: u32, red: u8, green: u8, blue: u8)
    requires
        old(buf).wf(),
        t >= 1,
        gx + 3 * t <= old(buf).width,
        gy + 5 * t <= old(buf).height,
    ensures
        final (buf).wf(),
        final (buf).width == old(buf).width,
        final (buf).height == old(buf).height,
        forall|i: int, j: int|
            0 <= i < old(buf).width && 0 <= j < old(buf).height ==> #[trigger] final (buf).spec_pixel(
                i,
                j,
            ) == if in_glyph(b, gx as int, gy as int, t as int, i, j) {
                (red, green, blue)
            } else {
                old(buf).spec_pixel(i, j)
            },
{
    let mut k: u8 = 0;
    while k < 9
        invariant
            old(buf).wf(),
            buf.wf(),
            buf.width == old(buf).width,
            buf.height == old(buf).height,
            t >= 1,
            k <= 9,
            gx + 3 * t <= old(buf).width,
            gy + 5 * t <= old(buf).height,
            forall|i: int, j: int|
                0 <= i < old(buf).width && 0 <= j < old(buf).height
                    ==> #[trigger] buf.spec_pixel(i, j) == if in_glyph_upto(
                    b,
                    k as int,
                    gx as int,
                    gy as int,
                    t as int,
                    i,
                    j,
                ) {
                    (red, green, blue)
                } else {
                    old(buf).spec_pixel(i, j)
                },
        decreases 9 - k,
    {
        if seg_lit(b, k) {
            let (cx, cy, cw, ch) = seg_cell(k);
            proof {
                assert(cx * t + cw * t == (cx + cw) * t) by (nonlinear_arith);
                assert(cy * t + ch * t == (cy + ch) * t) by (nonlinear_arith);
                assert((cx + cw) * t <= 3 * t) by (nonlinear_arith)
                    requires
                        cx + cw <= 3,
                        t >= 1,
                ;
                assert((cy + ch) * t <= 5 * t) by (nonlinear_arith)
                    requires
                        cy + ch <= 5,
                        t >= 1,
                ;
                assert(cx * t <= (cx + cw) * t && cy * t <= (cy + ch) * t) by (nonlinear_arith)
                    requires
                        cw >= 1,
                        ch >= 1,
                        t >= 1,
                        cx >= 0,
                        cy >= 0,
                ;
            }
            fill_rect(buf, gx + cx * t, gy + cy * t, cw * t, ch * t, red, green, blue);
            proof {
                assert forall|i: int, j: int|
                    0 <= i < old(buf).width && 0 <= j < old(buf).height
                        implies #[trigger] buf.spec_pixel(i, j) == if in_glyph_upto(
                        b,
                        k + 1,
                        gx as int,
                        gy as int,
                        t as int,
                        i,
                        j,
                    ) {
                        (red, green, blue)
                    } else {
                        old(buf).spec_pixel(i, j)
                    } by {
                    let gxi = gx as int;
                    let gyi = gy as int;
                    let ti = t as int;
                    if in_rect(gxi + cx * t, gyi + cy * t, cw * t as int, ch * t as int, i, j) {
                        assert(in_seg(k as int, gxi, gyi, ti, i, j));
                        assert(in_glyph_upto(b, k + 1, gxi, gyi, ti, i, j));
                    } else {
                        assert(!in_seg(k as int, gxi, gyi, ti, i, j));
                        if in_glyph_upto(b, k + 1, gxi, gyi, ti, i, j) {
                            let kw = choose|kw: int|
                                0 <= kw < k + 1 && seg_on(b, kw) && #[trigger] in_seg(
                                    kw,
                                    gxi,
                                    gyi,
                                    ti,
                                    i,
                                    j,
                                );
                            assert(kw < k);
                            assert(in_glyph_upto(b, k as int, gxi, gyi, ti, i, j));
                        }
                        if in_glyph_upto(b, k as int, gxi, gyi, ti, i, j) {
                            let kw = choose|kw: int|
                                0 <= kw < k && seg_on(b, kw) && #[trigger] in_seg(
                                    kw,
                                    gxi,
                                    gyi,
                                    ti,
                                    i,
                                    j,
                                );
                            assert(in_glyph_upto(b, k + 1, gxi, gyi, ti, i, j));
                        }
                    }
                }
            }
        } else {
            proof {
                assert forall|i: int, j: int|
                    0 <= i < old(buf).width && 0 <= j < old(buf).height
                        implies #[trigger] buf.spec_pixel(i, j) == if in_glyph_upto(
                        b,
                        k + 1,
                        gx as int,
                        gy as int,
                        t as int,
                        i,
                        j,
                    ) {
                        (red, green, blue)
                    } else {
                        old(buf).spec_pixel(i, j)
                    } by {
                    let gxi = gx as int;
                    let gyi = gy as int;
                    let ti = t as int;
                    if in_glyph_upto(b, k + 1, gxi, gyi, ti, i, j) {
                        let kw = choose|kw: int|
                            0 <= kw < k + 1 && seg_on(b, kw) && #[trigger] in_seg(
                                kw,
                                gxi,
                                gyi,
                                ti,
                                i,
                                j,
                            );
                        assert(kw != k);
                        assert(in_glyph_upto(b, k as int, gxi, gyi, ti, i, j));
                    }
                    if in_glyph_upto(b, k as int, gxi, gyi, ti, i, j) {
                        let kw = choose|kw: int|
                            0 <= kw < k && seg_on(b, kw) && #[trigger] in_seg(kw, gxi, gyi, ti, i, j);
                        assert(in_glyph_upto(b, k + 1, gxi, gyi, ti, i, j));
                    }
                }
            }
        }
        k = k + 1;
    }
}

/// Horizontal cell origin of the glyph at text index `i`: glyphs advance by
/// four strokes.
pub open spec fn glyph_x(x: int, t: int, i: int) -> int {
    x + i * (4 * t)
}

/// Whether the glyph at text index `i` fits entirely inside a `w` x `h`
/// image; glyphs that do not fit are clipped away whole.
pub open spec fn glyph_visible(x: int, y: int, t: int, i: int, w: int, h: int) -> bool {
    glyph_x(x, t, i) + 3 * t <= w && y + 5 * t <= h
}

/// Whether `(px, py)` is lit by one of the first `ii` glyphs of the text.
pub open spec fn text_pixel_on_upto(
    text: Seq<u8>,
    ii: int,
    x: int,
    y: int,
    t: int,
    w: int,
    h: int,
    px: int,
    py: int,
) -> bool {
    exists|i: int|
        0 <= i < ii && glyph_visible(x, y, t, i, w, h) && #[trigger] in_glyph(
            text[i],
            glyph_x(x, t, i),
            y,
            t,
            px,
            py,
        )
}

/// Whether `(px, py)` is lit by the text drawn at anchor `(x, y)` with stroke
/// `t` on a `w` x `h` image.
pub open spec fn text_pixel_on(
    text: Seq<u8>,
    x: int,
    y: int,
    t: int,
    w: int,
    h: int,
    px: int,
    py: int,
) -> bool {
    text_pixel_on_upto(text, text.len() as int, x, y, t, w, h, px, py)
}

/// Draws `text` onto the buffer at anchor `(x, y)` with font size `size` in
/// the given colour.
///
/// Exactly the pixels lit by a fully visible glyph take the colour; all
/// others keep their value. Re-running the draw lays a second, identical
/// stamp over the first; idempotence of the image is not claimed.
pub fn draw_timestamp(
    buf: &mut PixelBuffer,
    red: u8,
    green: u8,
    blue: u8,
    x: u32,
    y: u32,
    size: u32,
    text: &str,
)
    requires
        old(buf).wf(),
    ensures
        final (buf).wf(),
        final (buf).width == old(buf).width,
        final (buf).height == old(buf).height,
        forall|i: int, j: int|
            0 <= i < old(buf).width && 0 <= j < old(buf).height ==> #[trigger] final (buf).spec_pixel(
                i,
                j,
            ) == if text_pixel_on(
                text.spec_bytes(),
                x as int,
                y as int,
                stroke(size as int),
                old(buf).width as int,
                old(buf).height as int,
                i,
                j,
            ) {
                (red, green, blue)
            } else {
                old(buf).spec_pixel(i, j)
            },
{
    let bytes: &[u8] = text.as_bytes();
    let t: u32 = if size / 5 >= 1 {
        size / 5
    } else {
        1
    };
    let n: usize = bytes.len();
    let w64: u64 = buf.width as u64;
    let mut gx: u64 = if (x as u64) <= w64 {
        x as u64
    } else {
        w64 + 1
    };
    let mut i: usize = 0;
    while i < n
        invariant
            old(buf).wf(),
            buf.wf(),
            buf.width == old(buf).width,
            buf.height == old(buf).height,
            t as int == stroke(size as int),
            t >= 1,
            i <= n,
            n == text.spec_bytes().len(),
            bytes@ == text.spec_bytes(),
            w64 == old(buf).width as u64,
            gx == vstd::math::min(x as int + i * (4 * t as int), w64 as int + 1),
            forall|px: int, py: int|
                0 <= px < old(buf).width && 0 <= py < old(buf).height
                    ==> #[trigger] buf.spec_pixel(px, py) == if text_pixel_on_upto(
                    text.spec_bytes(),
                    i as int,
                    x as int,
                    y as int,
                    t as int,
                    old(buf).width as int,
                    old(buf).height as int,
                    px,
                    py,
                ) {
                    (red, green, blue)
                } else {
                    old(buf).spec_pixel(px, py)
                },
        decreases n - i,
    {
        let ghost txt = text.spec_bytes();
        let ghost wi = old(buf).width as int;
        let ghost hi = old(buf).height as int;
        let b = bytes[i];
        let visible = gx + 3 * (t as u64) <= w64 && (y as u64) + 5 * (t as u64) <= buf.height as u64;
        proof {
            assert(visible == glyph_visible(x as int, y as int, t as int, i as int, wi, hi));
        }
        if visible {
            draw_glyph(buf, b, gx as u32, y, t, red, green, blue);
            proof {
                lemma_prefix_extend_drawn(
                    *old(buf),
                    *buf,
                    txt,
                    i as int,
                    x as int,
                    y as int,
                    t as int,
                    red,
                    green,
                    blue,
                );
            }
        } else {
            proof {
                lemma_prefix_extend_clipped(
                    *old(buf),
                    *buf,
                    txt,
                    i as int,
                    x as int,
                    y as int,
                    t as int,
                    red,
                    green,
                    blue,
                );
            }
        }
        let step: u64 = 4 * (t as u64);
        gx = if gx + step <= w64 {
            gx + step
        } else {
            w64 + 1
        };
        proof {
            lemma_glyph_x_step(x as int, t as int, i as int, w64 as int);
        }
        i = i + 1;
    }
}

/// Advancing the capped glyph origin by one step keeps it the capped value of
/// the true origin.
proof fn lemma_glyph_x_step(x: int, t: int, i: int, w: int)
    requires
        t >= 1,
        i >= 0,
    ensures
        glyph_x(x, t, i + 1) == glyph_x(x, t, i) + 4 * t,
        glyph_x(x, t, i) >= x,
{
    assert((i + 1) * (4 * t) == i * (4 * t) + 4 * t) by (nonlinear_arith);
    assert(i * (4 * t) >= 0) by (nonlinear_arith)
        requires
            t >= 1,
            i >= 0,
    ;
}

/// After drawing glyph `ii`, the lit pixels are exactly those of the first
/// `ii + 1` glyphs.
proof fn lemma_prefix_extend_drawn(
    orig: PixelBuffer,
    cur: PixelBuffer,
    txt: Seq<u8>,
    ii: int,
    x: int,
    y: int,
    t: int,
    red: u8,
    green: u8,
    blue: u8,
)
    requires
        0 <= ii < txt.len(),
        cur.width == orig.width,
        cur.height == orig.height,
        glyph_visible(x, y, t, ii, orig.width as int, orig.height as int),
        forall|px: int, py: int|
            0 <= px < orig.width && 0 <= py < orig.height ==> #[trigger] cur.spec_pixel(px, py)
                == if in_glyph(txt[ii], glyph_x(x, t, ii), y, t, px, py) || text_pixel_on_upto(
                txt,
                ii,
                x,
                y,
                t,
                orig.width as int,
                orig.height as int,
                px,
                py,
            ) {
                (red, green, blue)
            } else {
                orig.spec_pixel(px, py)
            },
    ensures
        forall|px: int, py: int|
            0 <= px < orig.width && 0 <= py < orig.height ==> #[trigger] cur.spec_pixel(px, py)
                == if text_pixel_on_upto(
                txt,
                ii + 1,
                x,
                y,
                t,
                orig.width as int,
                orig.height as int,
                px,
                py,
            ) {
                (red, green, blue)
            } else {
                orig.spec_pixel(px, py)
            },
{
    let w = orig.width as int;
    let h = orig.height as int;
    assert forall|px: int, py: int| 0 <= px < orig.width && 0 <= py < orig.height implies #[trigger] cur.spec_pixel(
        px,
        py,
    ) == if text_pixel_on_upto(txt, ii + 1, x, y, t, w, h, px, py) {
        (red, green, blue)
    } else {
        orig.spec_pixel(px, py)
    } by {
        if text_pixel_on_upto(txt, ii + 1, x, y, t, w, h, px, py) {
            let iw = choose|iw: int|
                0 <= iw < ii + 1 && glyph_visible(x, y, t, iw, w, h) && #[trigger] in_glyph(
                    txt[iw],
                    glyph_x(x, t, iw),
                    y,
                    t,
                    px,
                    py,
                );
            if iw < ii {
                assert(text_pixel_on_upto(txt, ii, x, y, t, w, h, px, py));
            }
        } else {
            assert(!in_glyph(txt[ii], glyph_x(x, t, ii), y, t, px, py));
            assert(!text_pixel_on_upto(txt, ii, x, y, t, w, h, px, py));
        }
    }
}

/// A clipped glyph draws nothing: the lit pixels of the first `ii + 1` glyphs
/// are those of the first `ii`.
proof fn lemma_prefix_extend_clipped(
    orig: PixelBuffer,
    cur: PixelBuffer,
    txt: Seq<u8>,
    ii: int,
    x: int,
    y: int,
    t: int,
    red: u8,
    green: u8,
    blue: u8,
)
    requires
        0 <= ii < txt.len(),
        cur.width == orig.width,
        cur.height == orig.height,
        !glyph_visible(x, y, t, ii, orig.width as int, orig.height as int),
        forall|px: int, py: int|
            0 <= px < orig.width && 0 <= py < orig.height ==> #[trigger] cur.spec_pixel(px, py)
                == if text_pixel_on_upto(
                txt,
                ii,
                x,
                y,
                t,
                orig.width as int,
                orig.height as int,
                px,
                py,
            ) {
                (red, green, blue)
            } else {
                orig.spec_pixel(px, py)
            },
    ensures
        forall|px: int, py: int|
            0 <= px < orig.width && 0 <= py < orig.height ==> #[trigger] cur.spec_pixel(px, py)
                == if text_pixel_on_upto(
                txt,
                ii + 1,
                x,
                y,
                t,
                orig.width as int,
                orig.height as int,
                px,
                py,
            ) {
                (red, green, blue)
            } else {
                orig.spec_pixel(px, py)
            },
{
    let w = orig.width as int;
    let h = orig.height as int;
    assert forall|px: int, py: int| 0 <= px < orig.width && 0 <= py < orig.height implies #[trigger] cur.spec_pixel(
        px,
        py,
    ) == if text_pixel_on_upto(txt, ii + 1, x, y, t, w, h, px, py) {
        (red, green, blue)
    } else {
        orig.spec_pixel(px, py)
    } by {
        if text_pixel_on_upto(txt, ii + 1, x, y, t, w, h, px, py) {
            let iw = choose|iw: int|
                0 <= iw < ii + 1 && glyph_visible(x, y, t, iw, w, h) && #[trigger] in_glyph(
                    txt[iw],
                    glyph_x(x, t, iw),
                    y,
                    t,
                    px,
                    py,
                );
            assert(iw != ii);
            assert(text_pixel_on_upto(txt, ii, x, y, t, w, h, px, py));
        }
        if text_pixel_on_upto(txt, ii, x, y, t, w, h, px, py) {
            let iw = choose|iw: int|
                0 <= iw < ii && glyph_visible(x, y, t, iw, w, h) && #[trigger] in_glyph(
                    txt[iw],
                    glyph_x(x, t, iw),
                    y,
                    t,
                    px,
                    py,
                );
            assert(text_pixel_on_upto(txt, ii + 1, x, y, t, w, h, px, py));
        }
    }
}

} // verus!
