//! The pixel grid that the engine works on.

use image::{Rgb, RgbImage};
use vstd::prelude::*;

verus! {

/// One pixel: its red, green and blue bytes.
pub type Pixel = (u8, u8, u8);

/// A grid of RGB pixels, `width` by `height`, kept as an `image::RgbImage`
/// over a `Vec<u8>`: three samples to a pixel, row by row from the top, each
/// row from the left.
#[verifier::external_body]
pub struct Raster {
    inner: RgbImage,
}

/// The samples that a grid is kept in.
pub uninterp spec fn raster_samples(raster: Raster) -> Seq<u8>;

/// The width and the height of a grid.
pub uninterp spec fn raster_dimensions(raster: Raster) -> (u32, u32);

/// The first `count` pixels that a run of samples spells out, three samples
/// to a pixel.
pub open spec fn pixels_of(samples: Seq<u8>, count: nat) -> Seq<Pixel> {
    Seq::new(count, |i: int| (samples[3 * i], samples[3 * i + 1], samples[3 * i + 2]))
}

/// Where the first sample of the pixel in column `x` of row `y` stands.
pub open spec fn sample_index(width: u32, x: u32, y: u32) -> int {
    3 * (y * width + x)
}

/// The samples with the three from `at` on replaced by those of `pixel`.
pub open spec fn with_pixel(samples: Seq<u8>, at: int, pixel: Pixel) -> Seq<u8> {
    samples.update(at, pixel.0).update(at + 1, pixel.1).update(at + 2, pixel.2)
}

impl View for Raster {
    type V = Seq<Pixel>;

    /// The grid's pixels, row by row.
    open spec fn view(&self) -> Seq<Pixel> {
        pixels_of(self.spec_samples(), self.spec_pixel_count())
    }
}

/// `ImageBuffer::from_raw` on RGB bytes: the grid is made exactly when the
/// samples suffice for `width * height` pixels; it then keeps the samples as
/// they are, under these dimensions.
#[verifier::external_body]
fn from_raw(width: u32, height: u32, samples: Vec<u8>) -> (r: Option<Raster>)
    ensures
        r is Some <==> 3 * width * height <= samples@.len(),
        r matches Some(raster) ==> {
            &&& raster_dimensions(raster) == (width, height)
            &&& raster_samples(raster) == samples@
        },
{
    match RgbImage::from_raw(width, height, samples) {
        Some(inner) => Some(Raster { inner }),
        None => None,
    }
}

/// `ImageBuffer::into_raw`: the samples that the grid is kept in.
#[verifier::external_body]
fn into_raw(raster: Raster) -> (samples: Vec<u8>)
    ensures
        samples@ == raster_samples(raster),
{
    raster.inner.into_raw()
}

/// `ImageBuffer::dimensions`: the width and the height. Every grid has
/// samples enough for its `width * height` pixels; `from_raw` makes no other.
#[verifier::external_body]
pub(crate) fn dimensions(raster: &Raster) -> (d: (u32, u32))
    ensures
        d == raster_dimensions(*raster),
        3 * d.0 * d.1 <= raster_samples(*raster).len(),
{
    raster.inner.dimensions()
}

/// `ImageBuffer::get_pixel`: the three samples of the pixel in column `x` of
/// row `y`. Outside the grid the call panics, so the position must lie
/// inside.
#[verifier::external_body]
pub(crate) fn get_pixel(raster: &Raster, x: u32, y: u32) -> (p: Pixel)
    requires
        x < raster_dimensions(*raster).0,
        y < raster_dimensions(*raster).1,
    ensures
        p.0 == raster_samples(*raster)[sample_index(raster_dimensions(*raster).0, x, y)],
        p.1 == raster_samples(*raster)[sample_index(raster_dimensions(*raster).0, x, y) + 1],
        p.2 == raster_samples(*raster)[sample_index(raster_dimensions(*raster).0, x, y) + 2],
{
    let rgb = raster.inner.get_pixel(x, y).0;
    (rgb[0], rgb[1], rgb[2])
}

/// `ImageBuffer::put_pixel`: overwrites the three samples of the pixel in
/// column `x` of row `y` and nothing else. Outside the grid the call panics,
/// so the position must lie inside.
#[verifier::external_body]
pub(crate) fn put_pixel(raster: &mut Raster, x: u32, y: u32, p: Pixel)
    requires
        x < raster_dimensions(*old(raster)).0,
        y < raster_dimensions(*old(raster)).1,
    ensures
        raster_dimensions(*final(raster)) == raster_dimensions(*old(raster)),
        raster_samples(*final(raster)) == with_pixel(
            raster_samples(*old(raster)),
            sample_index(raster_dimensions(*old(raster)).0, x, y),
            p,
        ),
{
    raster.inner.put_pixel(x, y, Rgb([p.0, p.1, p.2]))
}

impl Raster {
    /// The number of columns.
    pub open spec fn spec_width(&self) -> nat {
        raster_dimensions(*self).0 as nat
    }

    /// The number of rows.
    pub open spec fn spec_height(&self) -> nat {
        raster_dimensions(*self).1 as nat
    }

    /// The number of pixels.
    pub open spec fn spec_pixel_count(&self) -> nat {
        self.spec_width() * self.spec_height()
    }

    /// The samples that the grid is kept in: those of its pixels, and after
    /// them any that it was given beyond.
    pub open spec fn spec_samples(&self) -> Seq<u8> {
        raster_samples(*self)
    }

    /// Makes a grid from its samples, three to a pixel, row by row. There is
    /// no grid when the samples are too few for `width * height` pixels;
    /// samples beyond those pixels are carried along.
    pub fn from_samples(width: u32, height: u32, samples: Vec<u8>) -> (r: Option<Raster>)
        ensures
            r is Some <==> 3 * width * height <= samples@.len(),
            r matches Some(raster) ==> {
                &&& raster.spec_width() == width
                &&& raster.spec_height() == height
                &&& raster.spec_samples() == samples@
            },
    {
        from_raw(width, height, samples)
    }

    /// Gives the samples back.
    pub fn into_samples(self) -> (samples: Vec<u8>)
        ensures
            samples@ == self.spec_samples(),
    {
        into_raw(self)
    }

    /// The number of columns.
    pub fn width(&self) -> (w: u32)
        ensures
            w == self.spec_width(),
    {
        dimensions(self).0
    }

    /// The number of rows.
    pub fn height(&self) -> (h: u32)
        ensures
            h == self.spec_height(),
    {
        dimensions(self).1
    }
}

} // verus!
