//! One pass over a grid, and a run of passes.

use crate::mode::ChangeMode;
use crate::raster::{
    dimensions, get_pixel, pixels_of, put_pixel, raster_dimensions, Pixel, Raster,
};
use vstd::prelude::*;

verus! {

/// `std::io::Error`, the error type in the result of `deepfry`. It is only
/// named, never made or read: nothing is claimed of it.
#[verifier::external_type_specification]
#[verifier::external_body]
pub struct ExIoError(std::io::Error);

/// The algorithm to use while deepfrying.
#[derive(Debug, Clone, Copy, PartialEq, Eq, Structural)]
pub enum DeepfryAlgorithm {
    /// Changes bits based off a `ChangeMode`, with one parameter each for the
    /// red, the green and the blue channel.
    BitChange(ChangeMode, u32, u32, u32),
}

impl DeepfryAlgorithm {
    /// What one pass makes of one pixel: each channel goes through the mode
    /// with its own parameter.
    pub open spec fn spec_apply(self, pixel: Pixel) -> Pixel {
        match self {
            DeepfryAlgorithm::BitChange(mode, red, green, blue) => (
                mode.spec_shift(pixel.0, red),
                mode.spec_shift(pixel.1, green),
                mode.spec_shift(pixel.2, blue),
            ),
        }
    }

    /// What one pass makes of a run of pixels: each pixel by itself.
    pub open spec fn spec_fry(self, pixels: Seq<Pixel>) -> Seq<Pixel> {
        Seq::new(pixels.len(), |i: int| self.spec_apply(pixels[i]))
    }

    /// Applies one pass to one pixel.
    pub fn apply(self, pixel: Pixel) -> (r: Pixel)
        ensures
            r == self.spec_apply(pixel),
    {
        match self {
            DeepfryAlgorithm::BitChange(mode, red, green, blue) => (
                mode.shift(pixel.0, red),
                mode.shift(pixel.1, green),
                mode.shift(pixel.2, blue),
            ),
        }
    }
}

/// What a run of passes makes of a run of pixels: the first pass, then the
/// rest on what the first left.
pub open spec fn spec_fry_all(algos: Seq<DeepfryAlgorithm>, pixels: Seq<Pixel>) -> Seq<Pixel>
    decreases algos.len(),
{
    if algos.len() == 0 {
        pixels
    } else {
        spec_fry_all(algos.drop_first(), algos[0].spec_fry(pixels))
    }
}

/// Whether two grids agree in their dimensions and in the samples that lie
/// beyond their pixels.
pub open spec fn same_beyond_pixels(before: Raster, after: Raster) -> bool {
    &&& after.spec_width() == before.spec_width()
    &&& after.spec_height() == before.spec_height()
    &&& after.spec_samples().len() == before.spec_samples().len()
    &&& after.spec_samples().skip(3 * before.spec_pixel_count() as int)
        == before.spec_samples().skip(3 * before.spec_pixel_count() as int)
}

/// Deepfries an image in place: every pixel is replaced by what the pass
/// makes of it, and nothing else changes. This never fails.
pub fn deepfry(image: &mut Raster, algo: DeepfryAlgorithm) -> (r: Result<(), std::io::Error>)
    ensures
        r is Ok,
        final(image)@ == algo.spec_fry(old(image)@),
        same_beyond_pixels(*old(image), *final(image)),
{
    let (width, height) = dimensions(image);
    let ghost before = image.spec_samples();
    let ghost count = width as int * height as int;
    assert(3 * count == 3 * width * height) by (nonlinear_arith)
        requires
            count == width * height,
    ;
    let mut y: u32 = 0;
    while y < height
        invariant
            y <= height,
            (width, height) == raster_dimensions(*image),
            (width, height) == raster_dimensions(*old(image)),
            before == old(image).spec_samples(),
            count == width * height,
            3 * count <= before.len() == image.spec_samples().len(),
            forall|i: int|
                0 <= i < y * width && i < count ==> #[trigger] pixels_of(
                    image.spec_samples(),
                    count as nat,
                )[i] == algo.spec_apply(pixels_of(before, count as nat)[i]),
            forall|j: int|
                3 * (y * width) <= j < before.len() ==> #[trigger] image.spec_samples()[j]
                    == before[j],
        decreases height - y,
    {
        let mut x: u32 = 0;
        while x < width
            invariant
                x <= width,
                y < height,
                (width, height) == raster_dimensions(*image),
                count == width * height,
                3 * count <= before.len() == image.spec_samples().len(),
                forall|i: int|
                    0 <= i < y * width + x && i < count ==> #[trigger] pixels_of(
                        image.spec_samples(),
                        count as nat,
                    )[i] == algo.spec_apply(pixels_of(before, count as nat)[i]),
                forall|j: int|
                    3 * (y * width + x) <= j < before.len() ==> #[trigger] image.spec_samples()[j]
                        == before[j],
            decreases width - x,
        {
            proof {
                lemma_position_in_grid(x as int, y as int, width as int, height as int);
            }
            let ghost earlier = image.spec_samples();
            let pixel = get_pixel(image, x, y);
            put_pixel(image, x, y, algo.apply(pixel));
            proof {
                let at = y * width + x;
                assert(pixels_of(before, count as nat)[at] == pixel);
                assert forall|i: int| 0 <= i < at + 1 && i < count implies #[trigger] pixels_of(
                    image.spec_samples(),
                    count as nat,
                )[i] == algo.spec_apply(pixels_of(before, count as nat)[i]) by {
                    if i < at {
                        assert(pixels_of(image.spec_samples(), count as nat)[i] == pixels_of(
                            earlier,
                            count as nat,
                        )[i]);
                    }
                }
            }
            x = x + 1;
        }
        proof {
            assert(y * width + width == (y + 1) * width) by (nonlinear_arith);
        }
        y = y + 1;
    }
    proof {
        assert(y * width == count) by (nonlinear_arith)
            requires
                y == height,
                count == width * height,
        ;
        assert(image@ =~= algo.spec_fry(old(image)@));
        assert(image.spec_samples().skip(3 * count) =~= before.skip(3 * count));
    }
    Ok(())
}

/// Deepfries an image with each pass in turn, each on what the one before
/// left.
pub fn deepfry_all(image: &mut Raster, algos: &Vec<DeepfryAlgorithm>)
    ensures
        final(image)@ == spec_fry_all(algos@, old(image)@),
        same_beyond_pixels(*old(image), *final(image)),
{
    let mut done: usize = 0;
    assert(algos@.skip(0) =~= algos@);
    while done < algos.len()
        invariant
            done <= algos.len(),
            spec_fry_all(algos@.skip(done as int), image@) == spec_fry_all(algos@, old(image)@),
            same_beyond_pixels(*old(image), *image),
        decreases algos.len() - done,
    {
        proof {
            let rest = algos@.skip(done as int);
            assert(rest[0] == algos@[done as int]);
            assert(rest.drop_first() =~= algos@.skip(done + 1));
        }
        let _ = deepfry(image, algos[done]);
        done = done + 1;
    }
    proof {
        assert(algos@.skip(done as int).len() == 0);
    }
}

/// Column `x` of row `y` lies at `y * width + x`, inside the grid's pixels.
proof fn lemma_position_in_grid(x: int, y: int, width: int, height: int)
    requires
        0 <= x < width,
        0 <= y < height,
    ensures
        0 <= y * width + x < width * height,
{
    assert(y * width + width <= height * width) by (nonlinear_arith)
        requires
            y + 1 <= height,
            0 <= width,
    ;
    assert(0 <= y * width) by (nonlinear_arith)
        requires
            0 <= y,
            0 <= width,
    ;
    assert(height * width == width * height) by (nonlinear_arith);
}

} // verus!
