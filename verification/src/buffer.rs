use crate::color::{blend_over, over, Color};
use vstd::prelude::*;

verus! {

/// The mathematical content of a pixel grid: its extent and the colour at
/// every coordinate inside it. `x` grows to the right and `y` downwards.
#[verifier::ext_equal]
pub struct Raster {
    pub width: int,
    pub height: int,
    pub pixels: Map<(int, int), Color>,
}

impl Raster {
    /// Whether `(x, y)` lies inside the grid.
    pub open spec fn contains(self, x: int, y: int) -> bool {
        0 <= x < self.width && 0 <= y < self.height
    }

    /// The colour at `(x, y)`; meaningful inside the grid only.
    pub open spec fn at(self, x: int, y: int) -> Color {
        self.pixels[(x, y)]
    }

    /// A grid whose pixel at each `(x, y)` is `f(x, y)`.
    pub open spec fn build(width: int, height: int, f: spec_fn(int, int) -> Color) -> Raster {
        Raster {
            width,
            height,
            pixels: Map::new(
                |p: (int, int)| 0 <= p.0 < width && 0 <= p.1 < height,
                |p: (int, int)| f(p.0, p.1),
            ),
        }
    }

    /// A grid of one colour.
    pub open spec fn filled(width: int, height: int, color: Color) -> Raster {
        Self::build(width, height, |x: int, y: int| color)
    }

    /// Whether the extent is one that a buffer can have: neither side is
    /// negative or beyond `u32`.
    pub open spec fn in_range(self) -> bool {
        0 <= self.width <= u32::MAX && 0 <= self.height <= u32::MAX
    }

    /// The grid that `data` holds row by row, four bytes to a pixel in the
    /// order red, green, blue, alpha. Bytes past the last pixel are ignored.
    pub open spec fn from_bytes(width: int, height: int, data: Seq<u8>) -> Raster {
        Self::build(
            width,
            height,
            |x: int, y: int|
                {
                    let at = 4 * (y * width + x);
                    Color { r: data[at], g: data[at + 1], b: data[at + 2], a: data[at + 3] }
                },
        )
    }

    /// The grid with the pixel at `(x, y)` replaced.
    pub open spec fn put(self, x: int, y: int, color: Color) -> Raster {
        Raster { width: self.width, height: self.height, pixels: self.pixels.insert((x, y), color) }
    }

    /// `top` composited onto `self` with its upper left corner at `(x, y)`.
    /// The extent stays that of `self`; what of `top` falls outside is dropped.
    pub open spec fn paint(self, top: Raster, x: int, y: int) -> Raster {
        Self::build(
            self.width,
            self.height,
            |i: int, j: int|
                if top.contains(i - x, j - y) {
                    over(self.at(i, j), top.at(i - x, j - y))
                } else {
                    self.at(i, j)
                },
        )
    }
}

/// A grid of RGBA pixels, held by the `image` crate.
#[verifier::external_body]
pub struct PixelBuffer {
    inner: image::RgbaImage,
}

/// The number of columns of a buffer.
pub uninterp spec fn buffer_width(buf: PixelBuffer) -> u32;

/// The number of rows of a buffer.
pub uninterp spec fn buffer_height(buf: PixelBuffer) -> u32;

/// The colour of each pixel of a buffer, by `(x, y)`.
pub uninterp spec fn buffer_pixels(buf: PixelBuffer) -> Map<(int, int), Color>;

impl View for PixelBuffer {
    type V = Raster;

    open spec fn view(&self) -> Raster {
        Raster::build(
            buffer_width(*self) as int,
            buffer_height(*self) as int,
            |x: int, y: int| buffer_pixels(*self)[(x, y)],
        )
    }
}

impl PixelBuffer {
    /// `ImageBuffer::new`: a zero-filled buffer of the given extent. It
    /// panics when the byte length is more than a vector can hold, which
    /// `requires` rules out.
    #[verifier::external_body]
    fn zeroed(width: u32, height: u32) -> (out: PixelBuffer)
        requires
            4 * width * height <= isize::MAX,
        ensures
            out@ == Raster::filled(width as int, height as int, Color::clear()),
    {
        PixelBuffer { inner: image::RgbaImage::new(width, height) }
    }

    /// `ImageBuffer::dimensions`: width and height. Every buffer that exists
    /// has passed the crate's length check against the vector that holds it,
    /// so its byte length is one that a vector can have.
    #[verifier::external_body]
    fn extent(&self) -> (d: (u32, u32))
        ensures
            d.0 == buffer_width(*self),
            d.1 == buffer_height(*self),
            4 * d.0 * d.1 <= isize::MAX,
    {
        self.inner.dimensions()
    }

    /// `ImageBuffer::get_pixel`: the pixel at `(x, y)`. It panics outside
    /// the buffer, which `requires` rules out.
    #[verifier::external_body]
    fn read(&self, x: u32, y: u32) -> (color: Color)
        requires
            x < buffer_width(*self),
            y < buffer_height(*self),
        ensures
            color == buffer_pixels(*self)[(x as int, y as int)],
    {
        let p = self.inner.get_pixel(x, y);
        Color { r: p.0[0], g: p.0[1], b: p.0[2], a: p.0[3] }
    }

    /// `ImageBuffer::put_pixel`: replaces the pixel at `(x, y)` and nothing
    /// else. It panics outside the buffer, which `requires` rules out.
    #[verifier::external_body]
    fn write(&mut self, x: u32, y: u32, color: Color)
        requires
            x < buffer_width(*old(self)),
            y < buffer_height(*old(self)),
        ensures
            final(self)@ == old(self)@.put(x as int, y as int, color),
    {
        self.inner.put_pixel(x, y, image::Rgba([color.r, color.g, color.b, color.a]));
    }

    /// `image::imageops::overlay`: blends `top` onto this buffer with the
    /// upper left corner of `top` at `(x, y)`. Pixels of `top` that fall
    /// outside this buffer are skipped; this buffer keeps its extent.
    #[verifier::external_body]
    fn blend_onto(&mut self, top: &PixelBuffer, x: i64, y: i64)
        ensures
            final(self)@.width == old(self)@.width,
            final(self)@.height == old(self)@.height,
            forall|i: int, j: int|
                #![trigger final(self)@.at(i, j)]
                old(self)@.contains(i, j) ==> final(self)@.at(i, j) == (if top@.contains(
                    i - x,
                    j - y,
                ) {
                    let under = old(self)@.at(i, j);
                    let above = top@.at(i - x, j - y);
                    if above.a == 0 {
                        under
                    } else if above.a == 255 {
                        above
                    } else {
                        blend_over(under, above)
                    }
                } else {
                    old(self)@.at(i, j)
                }),
    {
        image::imageops::overlay(&mut self.inner, &top.inner, x, y);
    }

    /// `image::imageops::resize` with the Gaussian filter. The result has the
    /// extent asked for. When that is the extent of this buffer the crate
    /// copies the pixels; otherwise it resamples through a buffer of `f32`
    /// samples of this width and the new height, and nothing is stated of the
    /// colours that come out. `requires` rules out the lengths at which the
    /// crate's allocations panic, and sides longer than
    /// [`MAX_RESAMPLE_EXTENT`], up to which the weights of every output
    /// pixel are shown to have a positive sum.
    #[verifier::external_body]
    fn resample(&self, width: u32, height: u32) -> (out: PixelBuffer)
        requires
            fits_resample(self@, width as int, height as int),
        ensures
            out@.width == width,
            out@.height == height,
            width == buffer_width(*self) && height == buffer_height(*self) ==> out@ == self@,
    {
        let filter = image::imageops::FilterType::Gaussian;
        PixelBuffer { inner: image::imageops::resize(&self.inner, width, height, filter) }
    }

    /// `ImageBuffer::from_raw`: takes `data` as the pixels of a buffer, row
    /// by row, or gives `None` when `data` is too short for the extent.
    #[verifier::external_body]
    fn wrap(width: u32, height: u32, data: Vec<u8>) -> (out: Option<PixelBuffer>)
        ensures
            out is Some <==> 4 * width * height <= data@.len(),
            out is Some ==> out->0@ == Raster::from_bytes(width as int, height as int, data@),
    {
        match image::RgbaImage::from_raw(width, height, data) {
            Some(inner) => Some(PixelBuffer { inner }),
            None => None,
        }
    }

    /// `ImageBuffer::as_raw`: the bytes that hold the pixels, row by row.
    #[verifier::external_body]
    fn bytes(&self) -> (data: &Vec<u8>)
        ensures
            4 * buffer_width(*self) * buffer_height(*self) <= data@.len(),
            Raster::from_bytes(buffer_width(*self) as int, buffer_height(*self) as int, data@)
                == self@,
    {
        self.inner.as_raw()
    }

    /// A buffer of the given extent with every channel of every pixel zero.
    pub fn new(width: u32, height: u32) -> (out: PixelBuffer)
        requires
            4 * width * height <= isize::MAX,
        ensures
            out@ == Raster::filled(width as int, height as int, Color::clear()),
    {
        Self::zeroed(width, height)
    }

    /// A buffer over `data`, which holds the pixels row by row, four bytes
    /// each; `None` when `data` is shorter than the extent asks for.
    pub fn from_raw(width: u32, height: u32, data: Vec<u8>) -> (out: Option<PixelBuffer>)
        ensures
            out is Some <==> 4 * width * height <= data@.len(),
            out is Some ==> out->0@ == Raster::from_bytes(width as int, height as int, data@),
    {
        Self::wrap(width, height, data)
    }

    /// The bytes behind the buffer, laid out as [`PixelBuffer::from_raw`] takes them.
    pub fn as_raw(&self) -> (data: &Vec<u8>)
        ensures
            4 * self@.width * self@.height <= data@.len(),
            Raster::from_bytes(self@.width, self@.height, data@) == self@,
    {
        self.bytes()
    }

    /// The number of columns.
    pub fn width(&self) -> (w: u32)
        ensures
            w == self@.width,
    {
        self.extent().0
    }

    /// The number of rows.
    pub fn height(&self) -> (h: u32)
        ensures
            h == self@.height,
    {
        self.extent().1
    }

    /// Width and height. The byte length of any buffer is one that a vector
    /// can have.
    pub fn dimensions(&self) -> (d: (u32, u32))
        ensures
            d.0 == self@.width,
            d.1 == self@.height,
            4 * d.0 * d.1 <= isize::MAX,
    {
        self.extent()
    }

    /// Whether `(x, y)` is a pixel of this buffer.
    pub fn in_bounds(&self, x: u32, y: u32) -> (inside: bool)
        ensures
            inside == self@.contains(x as int, y as int),
    {
        let (width, height) = self.extent();
        x < width && y < height
    }

    /// The pixel at `(x, y)`, which must lie inside the buffer.
    pub fn get_pixel(&self, x: u32, y: u32) -> (color: Color)
        requires
            self@.contains(x as int, y as int),
        ensures
            color == self@.at(x as int, y as int),
    {
        self.read(x, y)
    }

    /// Replaces the pixel at `(x, y)`, which must lie inside the buffer.
    pub fn put_pixel(&mut self, x: u32, y: u32, color: Color)
        requires
            old(self)@.contains(x as int, y as int),
        ensures
            final(self)@ == old(self)@.put(x as int, y as int, color),
    {
        self.write(x, y, color)
    }

    /// Composites `top` onto this buffer with the upper left corner of `top`
    /// at `(x, y)`, clipped to this buffer.
    pub fn overlay(&mut self, top: &PixelBuffer, x: i64, y: i64)
        ensures
            final(self)@ == old(self)@.paint(top@, x as int, y as int),
    {
        self.blend_onto(top, x, y);
        proof {
            let after = self@;
            let want = old(self)@.paint(top@, x as int, y as int);
            assert forall|p: (int, int)| want.pixels.dom().contains(p) implies after.pixels[p]
                == want.pixels[p] by {
                assert(after.at(p.0, p.1) == after.pixels[p]);
            }
            assert(after.pixels =~= want.pixels);
        }
    }

    /// A copy of this buffer resampled to `width` by `height` with a
    /// Gaussian filter. Asking for the extent that the buffer has gives an
    /// exact copy.
    pub fn resized(&self, width: u32, height: u32) -> (out: PixelBuffer)
        requires
            fits_resample(self@, width as int, height as int),
        ensures
            out@.width == width,
            out@.height == height,
            width == self@.width && height == self@.height ==> out@ == self@,
    {
        self.resample(width, height)
    }
}

/// The longest side, in pixels, that is resampled: 2^23.
///
/// The `image` crate resamples one axis at a time, in single precision. For
/// the output pixel `k` of an axis it takes the centre
/// `(k + 0.5) * (old / new)`, a window of source pixels around it that
/// reaches three kernel units to each side, clamped to the source and never
/// empty, and divides the Gaussian weight of each pixel of the window by
/// the sum of the weights. A kernel unit is a pixel, or `old / new` pixels
/// where that is more. While both sides of the axis are at most 2^23,
/// `k + 0.5` is exact, and the two roundings that follow move the centre by
/// at most `old * 2^-23`, which is one pixel. So the window never starts
/// beyond the last source pixel, the clamp moves the first pixel of the
/// window toward the centre or not at all, and that pixel lies within 4.5
/// kernel units of the centre: three of reach and at most 1.5 of rounding.
/// Its weight is above `1e-18`, so the sum is positive and every weight is
/// a number. On longer sides this is not shown; a sum of zero would make
/// the weights NaN, and the crate panics when it converts a NaN to a byte.
pub const MAX_RESAMPLE_EXTENT: u32 = 8_388_608;

/// Whether `source` can be resampled to `width` by `height`. A copy at the
/// extent that `source` has always can. Otherwise no side, old or new, is
/// longer than [`MAX_RESAMPLE_EXTENT`], and what is allocated is no more
/// than a vector can hold: the result, and on the way a grid of four-byte
/// samples as wide as `source` and as high as the result.
pub open spec fn fits_resample(source: Raster, width: int, height: int) -> bool {
    (width == source.width && height == source.height) || {
        &&& source.width <= MAX_RESAMPLE_EXTENT
        &&& source.height <= MAX_RESAMPLE_EXTENT
        &&& width <= MAX_RESAMPLE_EXTENT
        &&& height <= MAX_RESAMPLE_EXTENT
        &&& 16 * source.width * height <= isize::MAX
        &&& 4 * width * height <= isize::MAX
    }
}

} // verus!
