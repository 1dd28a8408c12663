//! The image → tensor conversion pipeline: a single row-major pass over the
//! pixel grid that normalizes each channel triple, encodes it under the
//! chosen representation, and stores each value at the offset the chosen
//! layout assigns to its coordinate.

use crate::layout::{
    channel_count, in_raster, layout_index, layout_offset, lemma_layout_bijection, Layout,
};
use crate::raster::{from_image, image_dims, image_rgb8, Rgb8Image};
use crate::strategy::{
    apply_normalization, compatible, norm_value, DataTypeKind, Normalization, QuantMap,
    Representation,
};
use vstd::pervasive::VecAdditionalExecFns;
use vstd::prelude::*;

verus! {

/// The element the pipeline writes for channel `c` of the pixel at `(x, y)`:
/// the raw channel value, normalized, then encoded by the representation.
pub open spec fn converted_value(
    img: Rgb8Image,
    rep: Representation,
    n: Normalization,
    x: int,
    y: int,
    c: int,
) -> u8 {
    rep.spec_encode(norm_value(n, img.channel_at(x, y, c)))
}

/// A buffer of `len` copies of `value`: the default-initialized output
/// buffer that the scan then overwrites in full.
fn filled(len: usize, value: u8) -> (v: Vec<u8>)
    ensures
        v@.len() == len,
        forall|i: int| 0 <= i < len ==> v@[i] == value,
{
    let mut v: Vec<u8> = Vec::new();
    let mut i: usize = 0;
    while i < len
        invariant
            i <= len,
            v@.len() == i,
            forall|j: int| 0 <= j < i ==> v@[j] == value,
        decreases len - i,
    {
        v.push(value);
        i = i + 1;
    }
    v
}

/// Converts a raster to a flat buffer of encoded channel values: one pass in
/// row-major scan order, each channel value normalized, encoded, and written
/// at the offset the layout assigns to its coordinate. Total: every raster,
/// zero-dimension ones included, yields a buffer of exactly
/// `width * height * channels` elements, each pinned by the ensures below.
#[verifier::loop_isolation(false)]
pub fn convert_raster(img: &Rgb8Image, rep: &Representation, n: Normalization, l: Layout) -> (out:
    Vec<u8>)
    requires
        img.wf(),
        rep.wf(),
        compatible(n, rep.kind()),
    ensures
        out@.len() == img.spec_width() * img.spec_height() * channel_count(l),
        img.spec_width() == 0 || img.spec_height() == 0 ==> out@.len() == 0,
        forall|x: int, y: int, c: int|
            in_raster(img.spec_width(), img.spec_height(), x, y, c) ==> out@[#[trigger] layout_offset(
                l,
                img.spec_width(),
                img.spec_height(),
                x,
                y,
                c,
            )] == converted_value(*img, *rep, n, x, y, c),
{
    let (w, h) = img.dimensions();
    let len = img.bytes().len();
    let ghost wi = img.spec_width();
    let ghost hi = img.spec_height();
    proof {
        lemma_layout_bijection(l, wi, hi);
        assert(wi * hi * 3 == (wi * hi) * 3) by (nonlinear_arith);
    }
    let mut out = filled(len, 0);
    let mut y: usize = 0;
    while y < h
        invariant
            y <= h,
            out@.len() == len,
            forall|xx: int, yy: int, cc: int|
                0 <= yy < y && 0 <= xx < wi && 0 <= cc < 3 ==> out@[#[trigger] layout_offset(
                    l,
                    wi,
                    hi,
                    xx,
                    yy,
                    cc,
                )] == converted_value(*img, *rep, n, xx, yy, cc),
        decreases h - y,
    {
        let mut x: usize = 0;
        while x < w
            invariant
                x <= w,
                y < h,
                out@.len() == len,
                forall|xx: int, yy: int, cc: int|
                    0 <= yy < y && 0 <= xx < wi && 0 <= cc < 3 ==> out@[#[trigger] layout_offset(
                        l,
                        wi,
                        hi,
                        xx,
                        yy,
                        cc,
                    )] == converted_value(*img, *rep, n, xx, yy, cc),
                forall|xx: int, cc: int|
                    0 <= xx < x && 0 <= cc < 3 ==> out@[#[trigger] layout_offset(
                        l,
                        wi,
                        hi,
                        xx,
                        y as int,
                        cc,
                    )] == converted_value(*img, *rep, n, xx, y as int, cc),
            decreases w - x,
        {
            let px = img.pixel_at(x, y);
            let t = apply_normalization(n, px);
            let i0 = layout_index(l, w, h, x, y, 0);
            out.set(i0, rep.encode(t.0));
            let i1 = layout_index(l, w, h, x, y, 1);
            out.set(i1, rep.encode(t.1));
            let i2 = layout_index(l, w, h, x, y, 2);
            out.set(i2, rep.encode(t.2));
            x = x + 1;
        }
        y = y + 1;
    }
    proof {
        assert((wi == 0 || hi == 0) ==> wi * hi * 3 == 0) by (nonlinear_arith);
    }
    out
}

/// Converts a decoded image to a flat tensor buffer under the
/// unparameterized 8-bit representation, normalization `n` and layout `l`:
/// `width * height * channels` bytes, the normalized value of channel `c` of
/// the pixel at `(x, y)` standing at the offset the layout assigns. The
/// caller wraps the buffer in a tensor with the shape matching the layout.
pub fn to_tensor(img: &image::DynamicImage, n: Normalization, l: Layout) -> (out: Vec<u8>)
    requires
        compatible(n, DataTypeKind::U8),
        (image_dims(*img).0 as int) * (image_dims(*img).1 as int) * 3 <= usize::MAX as int,
    ensures
        out@.len() == (image_dims(*img).0 as int) * (image_dims(*img).1 as int) * channel_count(l),
        image_dims(*img).0 == 0 || image_dims(*img).1 == 0 ==> out@.len() == 0,
        forall|x: int, y: int, c: int|
            in_raster(image_dims(*img).0 as int, image_dims(*img).1 as int, x, y, c)
                ==> out@[#[trigger] layout_offset(
                l,
                image_dims(*img).0 as int,
                image_dims(*img).1 as int,
                x,
                y,
                c,
            )] == norm_value(n, image_rgb8(*img)[(y * (image_dims(*img).0 as int) + x) * 3 + c]),
{
    let raster = from_image(img);
    let rep = Representation::U8;
    convert_raster(&raster, &rep, n, l)
}

/// Converts a decoded image to a flat tensor buffer under the quantized
/// 8-bit representation: the same pass as [`to_tensor`], each normalized
/// channel value encoded through the quantization map built from the
/// caller's parameters.
pub fn to_tensor_with_quant(
    img: &image::DynamicImage,
    quant_params: QuantMap,
    n: Normalization,
    l: Layout,
) -> (out: Vec<u8>)
    requires
        quant_params.wf(),
        compatible(n, DataTypeKind::QuantizedU8),
        (image_dims(*img).0 as int) * (image_dims(*img).1 as int) * 3 <= usize::MAX as int,
    ensures
        out@.len() == (image_dims(*img).0 as int) * (image_dims(*img).1 as int) * channel_count(l),
        image_dims(*img).0 == 0 || image_dims(*img).1 == 0 ==> out@.len() == 0,
        forall|x: int, y: int, c: int|
            in_raster(image_dims(*img).0 as int, image_dims(*img).1 as int, x, y, c)
                ==> out@[#[trigger] layout_offset(
                l,
                image_dims(*img).0 as int,
                image_dims(*img).1 as int,
                x,
                y,
                c,
            )] == quant_params.map_view()[norm_value(
                n,
                image_rgb8(*img)[(y * (image_dims(*img).0 as int) + x) * 3 + c],
            ) as int],
{
    let raster = from_image(img);
    let rep = Representation::QuantizedU8(quant_params);
    convert_raster(&raster, &rep, n, l)
}

} // verus!
