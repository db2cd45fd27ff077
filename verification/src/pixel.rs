//! An owned, mutable 2-D grid of RGB samples.
//!
//! Pixels are stored row-major, three bytes per pixel. The buffer is the
//! library's own ground for the overlay draw step: every write to it is
//! verified down to the byte.

use vstd::prelude::*;

verus! {

/// A `width` x `height` grid of RGB pixels, row-major, three bytes each.
pub struct PixelBuffer {
    pub width: u32,
    pub height: u32,
    pub data: Vec<u8>,
}

impl PixelBuffer {
    /// Well-formedness: the byte store covers the grid exactly.
    pub open spec fn wf(self) -> bool {
        self.data@.len() == 3 * (self.width as int) * (self.height as int)
    }

    /// Byte offset of the pixel at `(x, y)`.
    pub open spec fn pixel_index(self, x: int, y: int) -> int {
        3 * (y * (self.width as int) + x)
    }

    /// The RGB sample at `(x, y)`.
    pub open spec fn spec_pixel(self, x: int, y: int) -> (u8, u8, u8) {
        (
            self.data@[self.pixel_index(x, y)],
            self.data@[self.pixel_index(x, y) + 1],
            self.data@[self.pixel_index(x, y) + 2],
        )
    }

    /// A fresh all-black buffer of the given dimensions.
    pub fn new(width: u32, height: u32) -> (buf: PixelBuffer)
        requires
            3 * (width as int) * (height as int) <= usize::MAX,
        ensures
            buf.wf(),
            buf.width == width,
            buf.height == height,
            forall|x: int, y: int|
                0 <= x < width && 0 <= y < height ==> #[trigger] buf.spec_pixel(x, y) == (
                0u8,
                0u8,
                0u8,
            ),
    {
        proof {
            lemma_grid_size(width as int, height as int);
        }
        let n: usize = (width as usize) * (height as usize) * 3;
        let mut data: Vec<u8> = Vec::new();
        data.resize(n, 0u8);
        let buf = PixelBuffer { width, height, data };
        proof {
            assert forall|x: int, y: int|
                0 <= x < width && 0 <= y < height implies #[trigger] buf.spec_pixel(x, y) == (
                0u8,
                0u8,
                0u8,
            ) by {
                lemma_pixel_index_bounds(width as int, height as int, x, y);
            }
        }
        buf
    }
}

/// The grid size `3 * w * h` computed stepwise equals the product, and each
/// partial product stays within the total.
proof fn lemma_grid_size(w: int, h: int)
    requires
        0 <= w,
        0 <= h,
    ensures
        3 * w * h == 3 * (w * h),
        w >= 1 ==> h <= 3 * w * h,
        3 * w <= 3 * w * h || h == 0,
{
    assert(3 * w * h == 3 * (w * h)) by (nonlinear_arith);
    assert(w >= 1 ==> h <= 3 * w * h) by (nonlinear_arith)
        requires
            0 <= w,
            0 <= h,
    ;
    assert(h >= 1 ==> 3 * w <= 3 * w * h) by (nonlinear_arith)
        requires
            0 <= w,
            0 <= h,
    ;
}

/// A pixel inside the grid has all three of its bytes inside the store.
proof fn lemma_pixel_index_bounds(w: int, h: int, x: int, y: int)
    requires
        0 <= x < w,
        0 <= y < h,
    ensures
        0 <= 3 * (y * w + x),
        3 * (y * w + x) + 3 <= 3 * w * h,
{
    assert(0 <= y * w + x && y * w + x + 1 <= w * h) by (nonlinear_arith)
        requires
            0 <= x < w,
            0 <= y < h,
    ;
    assert(3 * w * h == 3 * (w * h)) by (nonlinear_arith);
}

/// Distinct grid coordinates live at distinct byte offsets.
proof fn lemma_row_major_injective(w: int, x1: int, y1: int, x2: int, y2: int)
    by (nonlinear_arith)
    requires
        0 <= x1 < w,
        0 <= x2 < w,
        0 <= y1,
        0 <= y2,
        !(x1 == x2 && y1 == y2),
    ensures
        y1 * w + x1 != y2 * w + x2,
{
}

/// Writes one RGB sample; every other pixel keeps its value.
pub fn set_pixel(buf: &mut PixelBuffer, x: u32, y: u32, red: u8, green: u8, blue: u8)
    requires
        old(buf).wf(),
        x < old(buf).width,
        y < old(buf).height,
    ensures
        final (buf).wf(),
        final (buf).width == old(buf).width,
        final (buf).height == old(buf).height,
        forall|i: int, j: int|
            0 <= i < old(buf).width && 0 <= j < old(buf).height ==> #[trigger] final (buf).spec_pixel(
                i,
                j,
            ) == if i == x && j == y {
                (red, green, blue)
            } else {
                old(buf).spec_pixel(i, j)
            },
{
    let total: usize = buf.data.len();
    proof {
        lemma_pixel_index_bounds(
            buf.width as int,
            buf.height as int,
            x as int,
            y as int,
        );
        lemma_grid_size(buf.width as int, buf.height as int);
        assert(3 * ((y as int) * (buf.width as int) + (x as int)) + 3 <= total);
    }
    let idx: usize = 3 * ((y as usize) * (buf.width as usize) + (x as usize));
    buf.data[idx] = red;
    buf.data[idx + 1] = green;
    buf.data[idx + 2] = blue;
    proof {
        assert forall|i: int, j: int|
            0 <= i < old(buf).width && 0 <= j < old(buf).height implies #[trigger] buf.spec_pixel(
            i,
            j,
        ) == if i == x && j == y {
            (red, green, blue)
        } else {
            old(buf).spec_pixel(i, j)
        } by {
            lemma_pixel_index_bounds(buf.width as int, buf.height as int, i, j);
            if !(i == x && j == y) {
                lemma_row_major_injective(buf.width as int, i, j, x as int, y as int);
            }
        }
    }
}

/// True iff `(px, py)` lies inside the rectangle at `(x0, y0)` of size
/// `rw` x `rh`.
pub open spec fn in_rect(x0: int, y0: int, rw: int, rh: int, px: int, py: int) -> bool {
    x0 <= px < x0 + rw && y0 <= py < y0 + rh
}

/// Fills a rectangle with one colour; every pixel outside it keeps its value.
pub fn fill_rect(buf: &mut PixelBuffer, x0: u32, y0: u32, rw: u32, rh: u32, red: u8, green: u8, blue: u8)
    requires
        old(buf).wf(),
        x0 + rw <= old(buf).width,
        y0 + rh <= old(buf).height,
    ensures
        final (buf).wf(),
        final (buf).width == old(buf).width,
        final (buf).height == old(buf).height,
        forall|i: int, j: int|
            0 <= i < old(buf).width && 0 <= j < old(buf).height ==> #[trigger] final (buf).spec_pixel(
                i,
                j,
            ) == if in_rect(x0 as int, y0 as int, rw as int, rh as int, i, j) {
                (red, green, blue)
            } else {
                old(buf).spec_pixel(i, j)
            },
{
    let mut y = y0;
    while y < y0 + rh
        invariant
            old(buf).wf(),
            buf.wf(),
            buf.width == old(buf).width,
            buf.height == old(buf).height,
            y0 <= y <= y0 + rh,
            y0 + rh <= old(buf).height,
            x0 + rw <= old(buf).width,
            forall|i: int, j: int|
                0 <= i < old(buf).width && 0 <= j < old(buf).height ==> #[trigger] buf.spec_pixel(
                    i,
                    j,
                ) == if in_rect(x0 as int, y0 as int, rw as int, y - y0, i, j) {
                    (red, green, blue)
                } else {
                    old(buf).spec_pixel(i, j)
                },
        decreases y0 + rh - y,
    {
        let mut x = x0;
        while x < x0 + rw
            invariant
                old(buf).wf(),
                buf.wf(),
                buf.width == old(buf).width,
                buf.height == old(buf).height,
                x0 <= x <= x0 + rw,
                y0 <= y < y0 + rh,
                y0 + rh <= old(buf).height,
                x0 + rw <= old(buf).width,
                forall|i: int, j: int|
                    0 <= i < old(buf).width && 0 <= j < old(buf).height
                        ==> #[trigger] buf.spec_pixel(i, j) == if in_rect(
                        x0 as int,
                        y0 as int,
                        rw as int,
                        y - y0,
                        i,
                        j,
                    ) || (j == y && x0 <= i < x) {
                        (red, green, blue)
                    } else {
                        old(buf).spec_pixel(i, j)
                    },
            decreases x0 + rw - x,
        {
            set_pixel(buf, x, y, red, green, blue);
            x = x + 1;
        }
        y = y + 1;
    }
}

} // verus!
