//! The canvas: an image of eight-bit RGBA pixels that can be read, outlined
//! and cropped. The pixels are kept by the `image` crate; what is known of
//! them here is stated over `Raster`, the mathematical picture of a canvas.

use crate::geometry::PixelRect;
use crate::geometry::MAX_EXTENT;
use vstd::prelude::*;

verus! {

/// One pixel: a red, a green, a blue and an alpha sample.
#[derive(Clone, Copy, Debug, PartialEq, Eq, Structural)]
pub struct Colour {
    pub red: u8,
    pub green: u8,
    pub blue: u8,
    pub alpha: u8,
}

/// The mathematical picture of a canvas: its width and its rows of pixels,
/// top row first, each row from left to right.
pub struct Raster {
    pub width: nat,
    pub rows: Seq<Seq<Colour>>,
}

impl Raster {
    pub open spec fn height(self) -> nat {
        self.rows.len()
    }

    /// Every row is as long as the raster is wide.
    pub open spec fn well_formed(self) -> bool {
        forall|y: int| 0 <= y < self.rows.len() ==> (#[trigger] self.rows[y]).len() == self.width
    }

    /// The raster that a buffer of samples describes: four samples for each
    /// pixel, in red, green, blue, alpha order, pixels row by row.
    pub open spec fn from_samples(width: nat, height: nat, samples: Seq<u8>) -> Raster {
        Raster {
            width,
            rows: Seq::new(
                height,
                |y: int|
                    Seq::new(
                        width,
                        |x: int|
                            Colour {
                                red: samples[4 * (y * width + x)],
                                green: samples[4 * (y * width + x) + 1],
                                blue: samples[4 * (y * width + x) + 2],
                                alpha: samples[4 * (y * width + x) + 3],
                            },
                    ),
            ),
        }
    }

    /// The raster with the border of `rect` painted in `colour`, as far as the
    /// border lies on the raster. Every other pixel is kept.
    pub open spec fn outlined(self, rect: PixelRect, colour: Colour) -> Raster {
        Raster {
            width: self.width,
            rows: Seq::new(
                self.rows.len(),
                |y: int|
                    Seq::new(
                        self.width,
                        |x: int|
                            if rect.on_outline(x, y) {
                                colour
                            } else {
                                self.rows[y][x]
                            },
                    ),
            ),
        }
    }

    /// The part of the raster that `rect` covers, as a raster of its own.
    pub open spec fn cropped(self, rect: PixelRect) -> Raster {
        Raster {
            width: rect.width as nat,
            rows: Seq::new(
                rect.height as nat,
                |j: int| Seq::new(rect.width as nat, |i: int| self.rows[rect.y + j][rect.x + i]),
            ),
        }
    }
}

/// An image of eight-bit RGBA pixels.
#[verifier::external_body]
#[derive(Debug)]
pub struct Canvas {
    image: image::RgbaImage,
}

/// The width of a canvas in pixels.
pub uninterp spec fn canvas_width(canvas: &Canvas) -> nat;

/// The rows of pixels that a canvas holds, top row first.
pub uninterp spec fn canvas_rows(canvas: &Canvas) -> Seq<Seq<Colour>>;

impl View for Canvas {
    type V = Raster;

    open spec fn view(&self) -> Raster {
        Raster { width: canvas_width(self), rows: canvas_rows(self) }
    }
}

/// `image::ImageBuffer::from_raw` for RGBA pixels. It accepts the buffer when
/// four samples for each of `width * height` pixels fit in it, and the canvas
/// then holds the pixels that the samples describe.
#[verifier::external_body]
fn buffer_from_raw(width: u32, height: u32, samples: Vec<u8>) -> (made: Option<Canvas>)
    ensures
        made is Some <==> (4 * width <= usize::MAX && 4 * width * height <= samples.len()),
        made matches Some(canvas) ==> canvas@ == Raster::from_samples(
            width as nat,
            height as nat,
            samples@,
        ),
{
    let image = image::RgbaImage::from_raw(width, height, samples)?;
    Some(Canvas { image })
}

/// `image::ImageBuffer::width`.
#[verifier::external_body]
fn buffer_width(canvas: &Canvas) -> (width: u32)
    ensures
        width == canvas_width(canvas),
{
    canvas.image.width()
}

/// `image::ImageBuffer::height`.
#[verifier::external_body]
fn buffer_height(canvas: &Canvas) -> (height: u32)
    ensures
        height == canvas_rows(canvas).len(),
{
    canvas.image.height()
}

/// `image::ImageBuffer::get_pixel`, which panics outside the image: the pixel
/// in column `x` of row `y`.
#[verifier::external_body]
pub(crate) fn buffer_pixel(canvas: &Canvas, x: u32, y: u32) -> (colour: Colour)
    requires
        x < canvas@.width,
        y < canvas@.rows.len(),
    ensures
        colour == canvas@.rows[y as int][x as int],
{
    let pixel = canvas.image.get_pixel(x, y);
    Colour { red: pixel.0[0], green: pixel.0[1], blue: pixel.0[2], alpha: pixel.0[3] }
}

/// `image::ImageBuffer::into_raw`: the buffer of samples that the canvas was
/// made of. It may be longer than the pixels need; its first samples describe
/// the pixels of the canvas, four for each, row by row.
#[verifier::external_body]
fn buffer_into_raw(canvas: Canvas) -> (samples: Vec<u8>)
    ensures
        4 * canvas@.width * canvas@.rows.len() <= samples.len(),
        Raster::from_samples(canvas@.width, canvas@.rows.len(), samples@) == canvas@,
{
    canvas.image.into_raw()
}

/// `imageproc::drawing::draw_hollow_rect_mut` on a rectangle built with
/// `imageproc::rect::Rect::at(..).of_size(..)`, which panics on an empty
/// rectangle. It overwrites the pixels on the border of the rectangle and no
/// others. The claim is made for rectangles that lie on the canvas and for
/// canvases within `MAX_EXTENT`, where the tracer's coordinates are exact.
#[verifier::external_body]
pub(crate) fn buffer_outline(canvas: &mut Canvas, rect: PixelRect, colour: Colour)
    requires
        rect.is_proper(),
        rect.within(old(canvas)@.width, old(canvas)@.rows.len()),
        old(canvas)@.width <= MAX_EXTENT,
        old(canvas)@.rows.len() <= MAX_EXTENT,
    ensures
        final(canvas)@ == old(canvas)@.outlined(rect, colour),
{
    let shape = imageproc::rect::Rect::at(rect.x, rect.y).of_size(rect.width, rect.height);
    let ink = image::Rgba([colour.red, colour.green, colour.blue, colour.alpha]);
    imageproc::drawing::draw_hollow_rect_mut(&mut canvas.image, shape, ink);
}

/// `image::imageops::crop` followed by `image::SubImage::to_image`: a copy of
/// the pixels that the rectangle covers, taken through a view that could
/// write to the canvas and does not. The claim is made for rectangles that
/// lie on the canvas, where the crop is not clamped.
#[verifier::external_body]
pub(crate) fn buffer_crop(canvas: &mut Canvas, rect: PixelRect) -> (part: Canvas)
    requires
        rect.within(old(canvas)@.width, old(canvas)@.rows.len()),
    ensures
        part@ == old(canvas)@.cropped(rect),
        final(canvas)@ == old(canvas)@,
{
    let view = image::imageops::crop(
        &mut canvas.image,
        rect.x as u32,
        rect.y as u32,
        rect.width,
        rect.height,
    );
    Canvas { image: view.to_image() }
}

impl Canvas {
    /// Makes a canvas of `width` by `height` pixels from a buffer of samples,
    /// four for each pixel, in red, green, blue, alpha order, row by row.
    /// The buffer is refused when it is too short for that many pixels.
    pub fn new(width: u32, height: u32, samples: Vec<u8>) -> (made: Option<Canvas>)
        ensures
            made is Some <==> (4 * width <= usize::MAX && 4 * width * height <= samples.len()),
            made matches Some(canvas) ==> canvas@ == Raster::from_samples(
                width as nat,
                height as nat,
                samples@,
            ),
    {
        buffer_from_raw(width, height, samples)
    }

    pub fn width(&self) -> (width: u32)
        ensures
            width == self@.width,
    {
        buffer_width(self)
    }

    pub fn height(&self) -> (height: u32)
        ensures
            height == self@.height(),
    {
        buffer_height(self)
    }

    /// The pixel in column `x` of row `y`, if the canvas has one there.
    pub fn get(&self, x: u32, y: u32) -> (found: Option<Colour>)
        ensures
            found is Some <==> x < self@.width && y < self@.height(),
            found matches Some(colour) ==> colour == self@.rows[y as int][x as int],
    {
        if x < buffer_width(self) && y < buffer_height(self) {
            Some(buffer_pixel(self, x, y))
        } else {
            None
        }
    }

    /// Gives up the canvas for its buffer of samples: four for each pixel, in
    /// red, green, blue, alpha order, row by row. A canvas made of these
    /// samples, with the same width and height, shows the same pixels.
    pub fn into_samples(self) -> (samples: Vec<u8>)
        ensures
            4 * self@.width * self@.height() <= samples.len(),
            Raster::from_samples(self@.width, self@.height(), samples@) == self@,
    {
        buffer_into_raw(self)
    }
}

/// A raster that is read from samples is well formed, and as wide and as high
/// as was asked for.
pub proof fn lemma_from_samples_shape(width: nat, height: nat, samples: Seq<u8>)
    ensures
        Raster::from_samples(width, height, samples).well_formed(),
        Raster::from_samples(width, height, samples).width == width,
        Raster::from_samples(width, height, samples).height() == height,
{
}

/// Outlining keeps the size of a raster, and leaves it well formed.
pub proof fn lemma_outlined_shape(raster: Raster, rect: PixelRect, colour: Colour)
    ensures
        raster.outlined(rect, colour).well_formed(),
        raster.outlined(rect, colour).width == raster.width,
        raster.outlined(rect, colour).height() == raster.height(),
{
}

/// A crop is as large as its rectangle, and well formed.
pub proof fn lemma_cropped_shape(raster: Raster, rect: PixelRect)
    ensures
        raster.cropped(rect).well_formed(),
        raster.cropped(rect).width == rect.width,
        raster.cropped(rect).height() == rect.height,
{
}

/// Outlining paints exactly the border of the rectangle: a pixel on it shows
/// the colour, and every other pixel is as it was.
pub proof fn lemma_outlined_pixel(raster: Raster, rect: PixelRect, colour: Colour, x: int, y: int)
    requires
        0 <= x < raster.width,
        0 <= y < raster.height(),
    ensures
        rect.on_outline(x, y) ==> raster.outlined(rect, colour).rows[y][x] == colour,
        !rect.on_outline(x, y) ==> raster.outlined(rect, colour).rows[y][x] == raster.rows[y][x],
{
}

/// Pixel `(i, j)` of a crop is the pixel of the raster that lies `i` columns
/// and `j` rows from the corner of the rectangle.
pub proof fn lemma_cropped_pixel(raster: Raster, rect: PixelRect, i: int, j: int)
    requires
        0 <= i < rect.width,
        0 <= j < rect.height,
    ensures
        raster.cropped(rect).rows[j][i] == raster.rows[rect.y + j][rect.x + i],
{
}

} // verus!
