//! Memory layout strategies: the mapping from a pixel coordinate and channel
//! to a flat offset in the output buffer, and the proof that this mapping is
//! a bijection onto the output buffer's index range.

use vstd::arithmetic::div_mod::{
    lemma_fundamental_div_mod, lemma_fundamental_div_mod_converse, lemma_mod_bound,
    lemma_multiply_divide_lt,
};
use vstd::prelude::*;

verus! {

/// A memory layout for a three-channel raster.
///
/// `ChannelMajor` stores all pixels of channel 0, then all of channel 1, then
/// all of channel 2 (the CHW arrangement). `PixelMajor` interleaves: the three
/// channels of one pixel stand together (the HWC arrangement).
#[derive(Clone, Copy, PartialEq, Eq, Structural)]
pub enum Layout {
    /// All values of one channel stand contiguously.
    ChannelMajor,
    /// All channels of one pixel stand contiguously.
    PixelMajor,
}

/// The channel count a layout is declared for. Both layouts here address
/// three-channel RGB rasters.
pub open spec fn channel_count(l: Layout) -> int {
    match l {
        Layout::ChannelMajor => 3,
        Layout::PixelMajor => 3,
    }
}

/// The flat offset of channel `c` of the pixel at `(x, y)` in a `w` by `h`
/// raster, under layout `l`.
pub open spec fn layout_offset(l: Layout, w: int, h: int, x: int, y: int, c: int) -> int {
    match l {
        Layout::ChannelMajor => c * (w * h) + y * w + x,
        Layout::PixelMajor => (y * w + x) * 3 + c,
    }
}

/// A coordinate triple that lies inside a `w` by `h` three-channel raster.
pub open spec fn in_raster(w: int, h: int, x: int, y: int, c: int) -> bool {
    0 <= x < w && 0 <= y < h && 0 <= c < 3
}

/// The pixel offset `y * w + x` of an in-raster coordinate lies below `w * h`.
proof fn lemma_pixel_offset_bound(w: int, h: int, x: int, y: int) by (nonlinear_arith)
    requires
        0 <= x < w,
        0 <= y < h,
    ensures
        0 <= y * w + x < w * h,
{
}

/// Every in-raster coordinate is mapped below `3 * w * h`.
proof fn lemma_offset_in_range(l: Layout, w: int, h: int, x: int, y: int, c: int)
    requires
        in_raster(w, h, x, y, c),
    ensures
        0 <= layout_offset(l, w, h, x, y, c) < 3 * (w * h),
{
    lemma_pixel_offset_bound(w, h, x, y);
    let p = y * w + x;
    match l {
        Layout::ChannelMajor => {
            assert(0 <= c * (w * h) + p < 3 * (w * h)) by (nonlinear_arith)
                requires
                    0 <= c < 3,
                    0 <= p < w * h,
            ;
        },
        Layout::PixelMajor => {
            assert(0 <= p * 3 + c < 3 * (w * h)) by (nonlinear_arith)
                requires
                    0 <= c < 3,
                    0 <= p < w * h,
            ;
        },
    }
}

/// A number below `q * b` decomposes uniquely as `quotient * b + remainder`
/// with the remainder below `b`: two equal decompositions agree digit by
/// digit.
proof fn lemma_digits_unique(b: int, q1: int, r1: int, q2: int, r2: int)
    requires
        0 < b,
        0 <= r1 < b,
        0 <= r2 < b,
        0 <= q1,
        0 <= q2,
        q1 * b + r1 == q2 * b + r2,
    ensures
        q1 == q2,
        r1 == r2,
{
    let n = q1 * b + r1;
    lemma_fundamental_div_mod_converse(n, b, q1, r1);
    lemma_fundamental_div_mod_converse(n, b, q2, r2);
}

/// Distinct in-raster coordinates are mapped to distinct offsets.
proof fn lemma_offset_injective(
    l: Layout,
    w: int,
    h: int,
    x1: int,
    y1: int,
    c1: int,
    x2: int,
    y2: int,
    c2: int,
)
    requires
        in_raster(w, h, x1, y1, c1),
        in_raster(w, h, x2, y2, c2),
        layout_offset(l, w, h, x1, y1, c1) == layout_offset(l, w, h, x2, y2, c2),
    ensures
        x1 == x2,
        y1 == y2,
        c1 == c2,
{
    lemma_pixel_offset_bound(w, h, x1, y1);
    lemma_pixel_offset_bound(w, h, x2, y2);
    let p1 = y1 * w + x1;
    let p2 = y2 * w + x2;
    match l {
        Layout::ChannelMajor => {
            lemma_digits_unique(w * h, c1, p1, c2, p2);
        },
        Layout::PixelMajor => {
            lemma_digits_unique(3, p1, c1, p2, c2);
        },
    }
    lemma_digits_unique(w, y1, x1, y2, x2);
}

/// Every offset below `3 * w * h` is reached from some in-raster coordinate.
proof fn lemma_offset_surjective(l: Layout, w: int, h: int, i: int)
    requires
        0 <= w,
        0 <= h,
        0 <= i < 3 * (w * h),
    ensures
        exists|x: int, y: int, c: int|
            in_raster(w, h, x, y, c) && layout_offset(l, w, h, x, y, c) == i,
{
    assert(w > 0 && h > 0) by (nonlinear_arith)
        requires
            0 <= w,
            0 <= h,
            0 <= i < 3 * (w * h),
    ;
    let (p, c) = match l {
        Layout::ChannelMajor => {
            let c = i / (w * h);
            let p = i % (w * h);
            assert(0 < w * h) by (nonlinear_arith)
                requires
                    w > 0,
                    h > 0,
            ;
            lemma_fundamental_div_mod(i, w * h);
            lemma_mod_bound(i, w * h);
            assert(i < (w * h) * 3) by (nonlinear_arith)
                requires
                    i < 3 * (w * h),
            ;
            lemma_multiply_divide_lt(i, w * h, 3);
            (p, c)
        },
        Layout::PixelMajor => {
            let p = i / 3;
            let c = i % 3;
            lemma_fundamental_div_mod(i, 3);
            lemma_mod_bound(i, 3);
            assert(i < 3 * (w * h) ==> i / 3 < w * h) by {
                lemma_multiply_divide_lt(i, 3, w * h);
            }
            (p, c)
        },
    };
    // split the pixel offset p into its row and column
    let y = p / w;
    let x = p % w;
    lemma_fundamental_div_mod(p, w);
    lemma_mod_bound(p, w);
    assert(p < w * h ==> p / w < h) by {
        lemma_multiply_divide_lt(p, w, h);
    }
    assert(in_raster(w, h, x, y, c));
    match l {
        Layout::ChannelMajor => {
            assert(i == (w * h) * (i / (w * h)) + i % (w * h));
            assert(c * (w * h) + (y * w + x) == i) by (nonlinear_arith)
                requires
                    i == (w * h) * c + p,
                    p == w * y + x,
            ;
            assert(layout_offset(l, w, h, x, y, c) == i);
        },
        Layout::PixelMajor => {
            assert(i == 3 * (i / 3) + i % 3);
            assert((y * w + x) * 3 + c == i) by (nonlinear_arith)
                requires
                    i == 3 * p + c,
                    p == w * y + x,
            ;
            assert(layout_offset(l, w, h, x, y, c) == i);
        },
    }
}

/// Whether some in-raster coordinate is mapped to offset `i`.
pub open spec fn offset_is_reached(l: Layout, w: int, h: int, i: int) -> bool {
    exists|x: int, y: int, c: int|
        in_raster(w, h, x, y, c) && layout_offset(l, w, h, x, y, c) == i
}

/// Layout bijection law: for a fixed `w` by `h` raster, a layout maps the
/// in-raster coordinate triples onto the offsets `0..3*w*h` exactly once —
/// every coordinate lands in range, no two coordinates collide, and every
/// offset in range is hit.
pub proof fn lemma_layout_bijection(l: Layout, w: int, h: int)
    requires
        0 <= w,
        0 <= h,
    ensures
        forall|x: int, y: int, c: int|
            in_raster(w, h, x, y, c) ==> 0 <= #[trigger] layout_offset(l, w, h, x, y, c) < w * h
                * channel_count(l),
        forall|x1: int, y1: int, c1: int, x2: int, y2: int, c2: int|
            in_raster(w, h, x1, y1, c1) && in_raster(w, h, x2, y2, c2)
                && #[trigger] layout_offset(l, w, h, x1, y1, c1) == #[trigger] layout_offset(
                l,
                w,
                h,
                x2,
                y2,
                c2,
            ) ==> x1 == x2 && y1 == y2 && c1 == c2,
        forall|i: int| 0 <= i < w * h * channel_count(l) ==> #[trigger] offset_is_reached(
            l,
            w,
            h,
            i,
        ),
{
    assert(w * h * channel_count(l) == 3 * (w * h)) by (nonlinear_arith)
        requires
            channel_count(l) == 3,
    ;
    assert forall|x: int, y: int, c: int| in_raster(w, h, x, y, c) implies 0
        <= #[trigger] layout_offset(l, w, h, x, y, c) < w * h * channel_count(l) by {
        lemma_offset_in_range(l, w, h, x, y, c);
    }
    assert forall|x1: int, y1: int, c1: int, x2: int, y2: int, c2: int|
        in_raster(w, h, x1, y1, c1) && in_raster(w, h, x2, y2, c2) && #[trigger] layout_offset(
            l,
            w,
            h,
            x1,
            y1,
            c1,
        ) == #[trigger] layout_offset(l, w, h, x2, y2, c2) implies x1 == x2 && y1 == y2 && c1
        == c2 by {
        lemma_offset_injective(l, w, h, x1, y1, c1, x2, y2, c2);
    }
    assert forall|i: int| 0 <= i < w * h * channel_count(l) implies #[trigger] offset_is_reached(
        l,
        w,
        h,
        i,
    ) by {
        lemma_offset_surjective(l, w, h, i);
        assert(exists|x: int, y: int, c: int|
            in_raster(w, h, x, y, c) && #[trigger] layout_offset(l, w, h, x, y, c) == i);
    }
}

/// The number of channels the layout addresses per pixel.
pub fn channels(l: Layout) -> (r: usize)
    ensures
        r as int == channel_count(l),
{
    match l {
        Layout::ChannelMajor => 3,
        Layout::PixelMajor => 3,
    }
}

/// Computes the flat offset of channel `c` of pixel `(x, y)` under layout
/// `l`, for a raster whose full buffer length `w * h * 3` fits in `usize`.
pub fn layout_index(l: Layout, w: usize, h: usize, x: usize, y: usize, c: usize) -> (r: usize)
    requires
        in_raster(w as int, h as int, x as int, y as int, c as int),
        w * h * 3 <= usize::MAX,
    ensures
        r as int == layout_offset(l, w as int, h as int, x as int, y as int, c as int),
        r < w * h * 3,
{
    proof {
        lemma_offset_in_range(l, w as int, h as int, x as int, y as int, c as int);
        assert(3 * ((w as int) * (h as int)) == (w as int) * (h as int) * 3) by (nonlinear_arith);
        assert((w as int) * (h as int) <= (w as int) * (h as int) * 3) by (nonlinear_arith);
        lemma_pixel_offset_bound(w as int, h as int, x as int, y as int);
    }
    match l {
        Layout::ChannelMajor => c * (w * h) + y * w + x,
        Layout::PixelMajor => (y * w + x) * 3 + c,
    }
}

} // verus!
