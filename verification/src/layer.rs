use crate::buffer::{fits_resample, PixelBuffer, Raster, MAX_RESAMPLE_EXTENT};
use crate::position::Position;
use vstd::prelude::*;

verus! {

/// Why a layer could not be resized.
#[derive(Clone, Copy, Debug, PartialEq, Eq, Structural)]
pub enum ResizeError {
    /// The layer has no columns, so it has no aspect ratio to keep.
    InvalidDimension,
    /// The new height does not fit `u32`, or one side of the layer, old or
    /// new, is too long to resample, or the resampling would need a longer
    /// buffer than there can be.
    TooLarge,
}

/// One pixel grid, the unit that is composited.
pub struct Layer {
    buffer: PixelBuffer,
}

impl View for Layer {
    type V = Raster;

    closed spec fn view(&self) -> Raster {
        self.buffer@
    }
}

/// The height that keeps the aspect ratio of `source` at the new `width`,
/// rounded down.
pub open spec fn scaled_height(source: Raster, width: int) -> int
    recommends
        source.width > 0,
{
    source.height * width / source.width
}

/// Whether `source` can be resized to `width`: the height that goes with it
/// fits `u32`, and so do the buffers that the resampling needs.
pub open spec fn can_resize(source: Raster, width: int) -> bool
    recommends
        source.width > 0,
{
    scaled_height(source, width) <= u32::MAX && fits_resample(
        source,
        width,
        scaled_height(source, width),
    )
}

impl Layer {
    /// The layer that shows `buffer`.
    pub fn from_buffer(buffer: PixelBuffer) -> (layer: Layer)
        ensures
            layer@ == buffer@,
    {
        Layer { buffer }
    }

    /// The pixels of the layer.
    pub fn buffer(&self) -> (buffer: &PixelBuffer)
        ensures
            buffer@ == self@,
    {
        &self.buffer
    }

    /// The extent of a layer is that of a buffer.
    pub proof fn view_in_range(&self)
        ensures
            self@.in_range(),
    {
    }

    /// Gives up the layer for its pixels.
    pub fn into_buffer(self) -> (buffer: PixelBuffer)
        ensures
            buffer@ == self@,
    {
        self.buffer
    }

    /// Resamples the layer to `nwidth` columns and as many rows as keep its
    /// aspect ratio, `height * nwidth / width` rounded down. A layer without
    /// columns, or a result too large to hold, is an error and leaves the
    /// layer as it was.
    pub fn resize(&mut self, nwidth: u32) -> (done: Result<(), ResizeError>)
        ensures
            match done {
                Ok(_) => {
                    &&& old(self)@.width > 0
                    &&& can_resize(old(self)@, nwidth as int)
                    &&& final(self)@.width == nwidth
                    &&& final(self)@.height == scaled_height(old(self)@, nwidth as int)
                    &&& final(self)@.width == old(self)@.width && final(self)@.height == old(
                        self,
                    )@.height ==> final(self)@ == old(self)@
                },
                Err(ResizeError::InvalidDimension) => {
                    &&& old(self)@.width == 0
                    &&& final(self)@ == old(self)@
                },
                Err(ResizeError::TooLarge) => {
                    &&& old(self)@.width > 0
                    &&& !can_resize(old(self)@, nwidth as int)
                    &&& final(self)@ == old(self)@
                },
            },
    {
        let (width, height) = self.buffer.dimensions();
        if width == 0 {
            return Err(ResizeError::InvalidDimension);
        }
        assert(height * nwidth <= 0xffff_ffff * 0xffff_ffff) by (nonlinear_arith)
            requires
                height <= 0xffff_ffff,
                nwidth <= 0xffff_ffff,
        ;
        let nheight: u64 = (height as u64) * (nwidth as u64) / (width as u64);
        if nheight > u32::MAX as u64 {
            return Err(ResizeError::TooLarge);
        }
        assert(nheight == scaled_height(old(self)@, nwidth as int));
        assert(16 * (width * nheight) == 16 * width * nheight && 4 * (nwidth * nheight) == 4
            * nwidth * nheight) by (nonlinear_arith);
        let same = nwidth == width && nheight == height as u64;
        if !same {
            assert(width * nheight <= 0xffff_ffff * 0xffff_ffff) by (nonlinear_arith)
                requires
                    width <= 0xffff_ffff,
                    nheight <= 0xffff_ffff,
            ;
            assert(nwidth * nheight <= 0xffff_ffff * 0xffff_ffff) by (nonlinear_arith)
                requires
                    nwidth <= 0xffff_ffff,
                    nheight <= 0xffff_ffff,
            ;
            let limit: u128 = isize::MAX as u128;
            let through: u128 = 16 * ((width as u128) * (nheight as u128));
            let result: u128 = 4 * ((nwidth as u128) * (nheight as u128));
            if width > MAX_RESAMPLE_EXTENT || height > MAX_RESAMPLE_EXTENT || nwidth
                > MAX_RESAMPLE_EXTENT || nheight > MAX_RESAMPLE_EXTENT as u64 || through > limit
                || result > limit {
                return Err(ResizeError::TooLarge);
            }
        }
        self.buffer = self.buffer.resized(nwidth, nheight as u32);
        Ok(())
    }
}

/// What a positioned layer is: its pixels and where they go on each axis.
#[verifier::ext_equal]
pub struct Placed {
    pub raster: Raster,
    pub x: Position,
    pub y: Position,
}

impl Placed {
    /// The right edge as a group measures it: offset plus width, where a
    /// centred layer counts as standing at the origin.
    pub open spec fn far_x(self) -> int {
        match self.x {
            Position::Coord(x) => x + self.raster.width,
            Position::Center => self.raster.width,
        }
    }

    /// The lower edge as a group measures it.
    pub open spec fn far_y(self) -> int {
        match self.y {
            Position::Coord(y) => y + self.raster.height,
            Position::Center => self.raster.height,
        }
    }
}

/// A layer together with its position on each axis of the parent.
pub struct PositionedLayer {
    layer: Layer,
    pos_x: Position,
    pos_y: Position,
}

impl View for PositionedLayer {
    type V = Placed;

    closed spec fn view(&self) -> Placed {
        Placed { raster: self.layer@, x: self.pos_x, y: self.pos_y }
    }
}

impl PositionedLayer {
    /// `layer` at `pos_x` along the horizontal and `pos_y` along the
    /// vertical axis.
    pub fn new(layer: Layer, pos_x: Position, pos_y: Position) -> (placed: PositionedLayer)
        ensures
            placed@ == (Placed { raster: layer@, x: pos_x, y: pos_y }),
    {
        PositionedLayer { layer, pos_x, pos_y }
    }

    /// The layer that is positioned.
    pub fn layer(&self) -> (layer: &Layer)
        ensures
            layer@ == self@.raster,
    {
        &self.layer
    }

    /// The position along the horizontal axis.
    pub fn pos_x(&self) -> (pos: Position)
        ensures
            pos == self@.x,
    {
        self.pos_x
    }

    /// The position along the vertical axis.
    pub fn pos_y(&self) -> (pos: Position)
        ensures
            pos == self@.y,
    {
        self.pos_y
    }

    /// The extent of a positioned layer is that of a buffer.
    pub proof fn view_in_range(&self)
        ensures
            self@.raster.in_range(),
    {
        self.layer.view_in_range();
    }

    /// Gives up the position for the layer.
    pub fn into_layer(self) -> (layer: Layer)
        ensures
            layer@ == self@.raster,
    {
        self.layer
    }
}

} // verus!
