use crate::buffer::{PixelBuffer, Raster};
use crate::color::Color;
use crate::layer::Layer;
use vstd::prelude::*;

verus! {

/// `image` seen through `mask`. The result has the extent of the mask. Where
/// the image has a pixel, every channel of it is scaled by the alpha of the
/// mask's pixel there; where it has none, the result is transparent white.
/// The colour channels of the mask play no part.
pub open spec fn masked(image: Raster, mask: Raster) -> Raster {
    Raster::build(
        mask.width,
        mask.height,
        |x: int, y: int|
            if image.contains(x, y) {
                image.at(x, y).scaled(mask.at(x, y).a)
            } else {
                Color::transparent_white()
            },
    )
}

/// Cuts `image` out with `mask`: see [`masked`].
pub fn apply_mask(image: Layer, mask: PixelBuffer) -> (out: Layer)
    ensures
        out@ == masked(image@, mask@),
{
    let (width, height) = mask.dimensions();
    let source = image.buffer();
    let ghost want = masked(image@, mask@);
    let mut result = PixelBuffer::new(width, height);
    let mut y: u32 = 0;
    while y < height
        invariant
            y <= height,
            source@ == image@,
            mask@.width == width,
            mask@.height == height,
            result@.width == width,
            result@.height == height,
            want == masked(image@, mask@),
            forall|i: int, j: int|
                0 <= i < width && 0 <= j < y ==> #[trigger] result@.at(i, j) == want.at(i, j),
        decreases height - y,
    {
        let mut x: u32 = 0;
        while x < width
            invariant
                x <= width,
                y < height,
                source@ == image@,
                mask@.width == width,
                mask@.height == height,
                result@.width == width,
                result@.height == height,
                want == masked(image@, mask@),
                forall|i: int, j: int|
                    0 <= i < width && 0 <= j < y ==> #[trigger] result@.at(i, j) == want.at(i, j),
                forall|i: int| 0 <= i < x ==> #[trigger] result@.at(i, y as int) == want.at(i, y as int),
            decreases width - x,
        {
            let color = if source.in_bounds(x, y) {
                source.get_pixel(x, y).dim(mask.get_pixel(x, y).a)
            } else {
                Color { r: 255, g: 255, b: 255, a: 0 }
            };
            let ghost before = result@;
            result.put_pixel(x, y, color);
            proof {
                assert(color == want.at(x as int, y as int));
                assert forall|i: int, j: int| 0 <= i < width && 0 <= j < y implies #[trigger]
                    result@.at(i, j) == want.at(i, j) by {
                    assert(before.at(i, j) == want.at(i, j));
                }
                assert forall|i: int| 0 <= i < x + 1 implies #[trigger] result@.at(i, y as int)
                    == want.at(i, y as int) by {
                    if i < x {
                        assert(before.at(i, y as int) == want.at(i, y as int));
                    }
                }
            }
            x += 1;
        }
        y += 1;
    }
    proof {
        assert forall|p: (int, int)| want.pixels.dom().contains(p) implies result@.pixels[p]
            == want.pixels[p] by {
            assert(result@.at(p.0, p.1) == want.at(p.0, p.1));
        }
        assert(result@.pixels =~= want.pixels);
    }
    Layer::from_buffer(result)
}

} // verus!
