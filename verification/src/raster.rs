//! The pixel source consumed by the conversion pipeline: a width × height
//! grid of RGB pixels held as plain bytes, and the trusted bridge that
//! obtains such a grid from a decoded `image::DynamicImage`.

use vstd::prelude::*;

verus! {

/// A decoded RGB raster: `width * height` pixels, three bytes per pixel in
/// channel order R, G, B, rows stored top to bottom and pixels within a row
/// left to right, so channel `c` of the pixel at `(x, y)` sits at byte
/// `(y * width + x) * 3 + c`.
pub struct Rgb8Image {
    width: usize,
    height: usize,
    data: Vec<u8>,
}

impl Rgb8Image {
    /// The raster's width in pixels.
    pub closed spec fn spec_width(self) -> int {
        self.width as int
    }

    /// The raster's height in pixels.
    pub closed spec fn spec_height(self) -> int {
        self.height as int
    }

    /// The raster bytes, row-major, three per pixel.
    pub closed spec fn raster(self) -> Seq<u8> {
        self.data@
    }

    /// The raster holds exactly three bytes per pixel.
    pub open spec fn wf(self) -> bool {
        self.raster().len() == self.spec_width() * self.spec_height() * 3
    }

    /// The 8-bit value of channel `c` of the pixel at `(x, y)`.
    pub open spec fn channel_at(self, x: int, y: int, c: int) -> u8 {
        self.raster()[(y * self.spec_width() + x) * 3 + c]
    }

    /// Builds a raster from its dimensions and bytes; rejects a byte buffer
    /// whose length is not exactly three bytes per pixel.
    pub fn new(width: usize, height: usize, data: Vec<u8>) -> (r: Option<Rgb8Image>)
        ensures
            data@.len() == (width as int) * (height as int) * 3 ==> (r matches Some(img)
                && img.spec_width() == width as int && img.spec_height() == height as int
                && img.raster() == data@ && img.wf()),
            data@.len() != (width as int) * (height as int) * 3 ==> r is None,
    {
        let n = data.len();
        let pixels = match width.checked_mul(height) {
            Some(p) => p,
            None => {
                return None;
            },
        };
        let bytes = match pixels.checked_mul(3) {
            Some(b) => b,
            None => {
                return None;
            },
        };
        if n == bytes {
            Some(Rgb8Image { width, height, data })
        } else {
            None
        }
    }

    /// The width and height of the pixel grid.
    pub fn dimensions(&self) -> (r: (usize, usize))
        ensures
            r.0 as int == self.spec_width(),
            r.1 as int == self.spec_height(),
    {
        (self.width, self.height)
    }

    /// Read-only view of the raster bytes.
    pub fn bytes(&self) -> (r: &Vec<u8>)
        ensures
            r@ == self.raster(),
    {
        &self.data
    }

    /// The three 8-bit channel values of the pixel at `(x, y)`, in channel
    /// order R, G, B.
    pub fn pixel_at(&self, x: usize, y: usize) -> (r: (u8, u8, u8))
        requires
            self.wf(),
            x < self.spec_width(),
            y < self.spec_height(),
        ensures
            r.0 == self.channel_at(x as int, y as int, 0),
            r.1 == self.channel_at(x as int, y as int, 1),
            r.2 == self.channel_at(x as int, y as int, 2),
    {
        proof {
            assert((y * self.spec_width() + x) * 3 + 2 < (self.spec_width() * self.spec_height())
                * 3) by (nonlinear_arith)
                requires
                    0 <= x < self.spec_width(),
                    0 <= y < self.spec_height(),
            ;
            assert(self.spec_width() * self.spec_height() * 3 == (self.spec_width()
                * self.spec_height()) * 3) by (nonlinear_arith);
        }
        // the buffer length bounds the offset arithmetic below usize::MAX
        let bound = self.data.len();
        proof {
            assert((y * self.spec_width() + x) * 3 + 2 < bound);
        }
        let base = (y * self.width + x) * 3;
        (self.data[base], self.data[base + 1], self.data[base + 2])
    }
}

#[verifier::external_type_specification]
#[verifier::external_body]
/// A decoded image of the `image` crate, opaque to this library; its pixel
/// grid is reached only through the trusted functions below.
pub struct ExDynamicImage(image::DynamicImage);

/// The width and height of a decoded image's pixel grid.
pub uninterp spec fn image_dims(img: image::DynamicImage) -> (u32, u32);

/// The bytes of a decoded image's pixel grid rendered as RGB8: three bytes
/// per pixel in channel order R, G, B, row-major, `(y * width + x) * 3 + c`
/// addressing channel `c` of the pixel at `(x, y)`.
pub uninterp spec fn image_rgb8(img: image::DynamicImage) -> Seq<u8>;

/// Relies on `image::GenericImageView::dimensions` for `DynamicImage`: the
/// width and height of the decoded pixel grid, which `DynamicImage::to_rgb8`
/// preserves.
#[verifier::external_body]
fn dimensions_of(img: &image::DynamicImage) -> (r: (u32, u32))
    ensures
        r == image_dims(*img),
{
    image::GenericImageView::dimensions(img)
}

/// Relies on `image::DynamicImage::to_rgb8` and `image::ImageBuffer::into_raw`:
/// the buffer holds the image rendered as RGB8, three bytes per pixel in
/// channel order R, G, B, row-major from its start. A backing buffer handed
/// in oversized at construction keeps its spare tail bytes, so the buffer is
/// at least — not exactly — `width * height * 3` bytes long. `to_rgb8`
/// allocates a buffer of that size and so panics when it exceeds `usize`;
/// the precondition leaves those dimensions out.
#[verifier::external_body]
fn rgb8_bytes(img: &image::DynamicImage) -> (r: Vec<u8>)
    requires
        (image_dims(*img).0 as int) * (image_dims(*img).1 as int) * 3 <= usize::MAX as int,
    ensures
        r@.len() >= (image_dims(*img).0 as int) * (image_dims(*img).1 as int) * 3,
        r@.subrange(
            0,
            (image_dims(*img).0 as int) * (image_dims(*img).1 as int) * 3,
        ) == image_rgb8(*img),
{
    img.to_rgb8().into_raw()
}

/// Renders a decoded image as a plain RGB raster value, the form the
/// verified pipeline reads.
pub fn from_image(img: &image::DynamicImage) -> (r: Rgb8Image)
    requires
        (image_dims(*img).0 as int) * (image_dims(*img).1 as int) * 3 <= usize::MAX as int,
    ensures
        r.wf(),
        r.spec_width() == image_dims(*img).0 as int,
        r.spec_height() == image_dims(*img).1 as int,
        r.raster() == image_rgb8(*img),
{
    let (w32, h32) = dimensions_of(img);
    let w = w32 as usize;
    let h = h32 as usize;
    let mut data = rgb8_bytes(img);
    let len = w * h * 3;
    data.truncate(len);
    let r = Rgb8Image { width: w, height: h, data };
    proof {
        assert(r.raster() =~= image_rgb8(*img));
    }
    r
}

} // verus!
