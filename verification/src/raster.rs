//! The raster images the repacker reads and writes.
//!
//! Pixel storage is the `image` crate's. Everything the logic knows about an
//! image is said over named spec functions: its width, its height, and the
//! map from coordinates to RGBA pixel values. The source is a decoded
//! `image::DynamicImage`; the destination canvas wraps an RGBA buffer.

use vstd::prelude::*;
use image::DynamicImage;
use image::GenericImageView;
use image::ImageBuffer;
use image::Rgba;

verus! {

#[verifier::external_type_specification]
#[verifier::external_body]
pub struct ExDynamicImage(DynamicImage);

/// The width, in pixels, of a decoded source image.
pub uninterp spec fn dyn_width(img: DynamicImage) -> u32;

/// The height, in pixels, of a decoded source image.
pub uninterp spec fn dyn_height(img: DynamicImage) -> u32;

/// What a decoded image holds: its RGBA pixel values, as (red, green, blue,
/// alpha) bytes, keyed by (x, y) coordinates.
pub uninterp spec fn dyn_pixels(img: DynamicImage) -> Map<(int, int), (u8, u8, u8, u8)>;

/// The destination canvas: a freshly allocated RGBA raster, one byte per
/// channel, owned by the repacker until it is handed back as an image.
#[verifier::external_body]
pub struct Canvas {
    buf: ImageBuffer<Rgba<u8>, Vec<u8>>,
}

/// The width, in pixels, that a canvas was created with.
pub uninterp spec fn canvas_width(c: Canvas) -> u32;

/// The height, in pixels, that a canvas was created with.
pub uninterp spec fn canvas_height(c: Canvas) -> u32;

/// What a canvas holds: its pixel values, as (red, green, blue, alpha)
/// bytes, keyed by (x, y) coordinates.
pub uninterp spec fn canvas_pixels(c: Canvas) -> Map<(int, int), (u8, u8, u8, u8)>;

/// The coordinates a raster of width `w` and height `h` addresses.
pub open spec fn pixel_dom(w: int, h: int) -> Set<(int, int)> {
    Set::new(|p: (int, int)| 0 <= p.0 < w && 0 <= p.1 < h)
}

/// Every pixel of a freshly allocated raster: zero on all four channels.
pub open spec fn zero_pixels(w: int, h: int) -> Map<(int, int), (u8, u8, u8, u8)> {
    Map::new(|p: (int, int)| 0 <= p.0 < w && 0 <= p.1 < h, |p: (int, int)| (0u8, 0u8, 0u8, 0u8))
}

/// Relies on `image::DynamicImage::width`.
#[verifier::external_body]
pub(crate) fn dyn_get_width(img: &DynamicImage) -> (r: u32)
    ensures
        r == dyn_width(*img),
{
    img.width()
}

/// Relies on `image::DynamicImage::height`.
#[verifier::external_body]
pub(crate) fn dyn_get_height(img: &DynamicImage) -> (r: u32)
    ensures
        r == dyn_height(*img),
{
    img.height()
}

/// Relies on `GenericImageView::get_pixel` for `DynamicImage`: the RGBA
/// value at `(x, y)`, a function of the image value alone; panics when the
/// coordinate is out of bounds.
#[verifier::external_body]
pub(crate) fn dyn_get_pixel(img: &DynamicImage, x: u32, y: u32) -> (r: (u8, u8, u8, u8))
    requires
        x < dyn_width(*img),
        y < dyn_height(*img),
    ensures
        r == dyn_pixels(*img)[(x as int, y as int)],
{
    let p = img.get_pixel(x, y);
    (p.0[0], p.0[1], p.0[2], p.0[3])
}

/// Relies on `image::ImageBuffer::new`: allocates a `width` by `height`
/// buffer with every sample zeroed; panics only when the byte length
/// `4 * width * height` overflows `usize`.
#[verifier::external_body]
pub(crate) fn canvas_new(width: u32, height: u32) -> (r: Canvas)
    requires
        4 * (width as int) * (height as int) <= usize::MAX as int,
    ensures
        canvas_width(r) == width,
        canvas_height(r) == height,
        canvas_pixels(r) == zero_pixels(width as int, height as int),
{
    Canvas { buf: ImageBuffer::new(width, height) }
}

/// Relies on `image::ImageBuffer::get_pixel`: the pixel at `(x, y)`; panics
/// when the coordinate is out of bounds.
#[verifier::external_body]
pub(crate) fn canvas_get_pixel(c: &Canvas, x: u32, y: u32) -> (r: (u8, u8, u8, u8))
    requires
        x < canvas_width(*c),
        y < canvas_height(*c),
    ensures
        r == canvas_pixels(*c)[(x as int, y as int)],
{
    let p = c.buf.get_pixel(x, y);
    (p.0[0], p.0[1], p.0[2], p.0[3])
}

/// Relies on `image::ImageBuffer::put_pixel`: overwrites the pixel at
/// `(x, y)` and nothing else; panics when the coordinate is out of bounds.
#[verifier::external_body]
pub(crate) fn canvas_put_pixel(c: &mut Canvas, x: u32, y: u32, p: (u8, u8, u8, u8))
    requires
        x < canvas_width(*old(c)),
        y < canvas_height(*old(c)),
    ensures
        canvas_width(*final(c)) == canvas_width(*old(c)),
        canvas_height(*final(c)) == canvas_height(*old(c)),
        canvas_pixels(*final(c)) == canvas_pixels(*old(c)).insert((x as int, y as int), p),
{
    c.buf.put_pixel(x, y, Rgba([p.0, p.1, p.2, p.3]));
}

/// Relies on `image::DynamicImage::ImageRgba8` holding the RGBA buffer
/// unchanged: the resulting image has the canvas's dimensions and pixels.
#[verifier::external_body]
pub(crate) fn canvas_into_image(c: Canvas) -> (r: DynamicImage)
    ensures
        dyn_width(r) == canvas_width(c),
        dyn_height(r) == canvas_height(c),
        dyn_pixels(r) == canvas_pixels(c),
{
    DynamicImage::ImageRgba8(c.buf)
}

impl Canvas {
    /// Allocates a zeroed canvas of the given pixel dimensions.
    pub fn new(width: u32, height: u32) -> (r: Canvas)
        requires
            4 * (width as int) * (height as int) <= usize::MAX as int,
        ensures
            canvas_width(r) == width,
            canvas_height(r) == height,
            canvas_pixels(r) == zero_pixels(width as int, height as int),
    {
        canvas_new(width, height)
    }

    /// The width the canvas was created with.
    pub fn width(&self) -> (r: u32)
        ensures
            r == canvas_width(*self),
    {
        canvas_width_of(self)
    }

    /// The height the canvas was created with.
    pub fn height(&self) -> (r: u32)
        ensures
            r == canvas_height(*self),
    {
        canvas_height_of(self)
    }

    /// The pixel at `(x, y)`.
    pub fn get(&self, x: u32, y: u32) -> (r: (u8, u8, u8, u8))
        requires
            x < canvas_width(*self),
            y < canvas_height(*self),
        ensures
            r == canvas_pixels(*self)[(x as int, y as int)],
    {
        canvas_get_pixel(self, x, y)
    }
}

/// Relies on `image::ImageBuffer::width`.
#[verifier::external_body]
pub(crate) fn canvas_width_of(c: &Canvas) -> (r: u32)
    ensures
        r == canvas_width(*c),
{
    c.buf.width()
}

/// Relies on `image::ImageBuffer::height`.
#[verifier::external_body]
pub(crate) fn canvas_height_of(c: &Canvas) -> (r: u32)
    ensures
        r == canvas_height(*c),
{
    c.buf.height()
}

} // verus!
