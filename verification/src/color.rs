use vstd::prelude::*;

verus! {

/// One RGBA pixel: eight bits per channel, alpha not premultiplied.
#[derive(Clone, Copy, Debug, PartialEq, Eq, Structural)]
pub struct Color {
    pub r: u8,
    pub g: u8,
    pub b: u8,
    pub a: u8,
}

impl Color {
    /// All four channels zero: what a freshly allocated buffer holds.
    pub open spec fn clear() -> Color {
        Color { r: 0, g: 0, b: 0, a: 0 }
    }

    /// White with alpha zero: what a masked image shows where it has no source pixel.
    pub open spec fn transparent_white() -> Color {
        Color { r: 255, g: 255, b: 255, a: 0 }
    }

    /// One channel scaled by `alpha / 255`, rounded toward zero.
    pub open spec fn scale_channel(channel: u8, alpha: u8) -> u8 {
        ((channel as int * alpha as int) / 255) as u8
    }

    /// All four channels, alpha included, scaled by `alpha / 255`.
    pub open spec fn scaled(self, alpha: u8) -> Color {
        Color {
            r: Self::scale_channel(self.r, alpha),
            g: Self::scale_channel(self.g, alpha),
            b: Self::scale_channel(self.b, alpha),
            a: Self::scale_channel(self.a, alpha),
        }
    }

    /// `channel * alpha / 255` rounded toward zero. The product of two bytes
    /// divided by 255 is at most 255.
    pub fn scale(channel: u8, alpha: u8) -> (scaled: u8)
        ensures
            scaled == Self::scale_channel(channel, alpha),
            scaled <= channel,
            scaled <= alpha,
    {
        assert(channel * alpha <= 255 * channel && channel * alpha <= 255 * alpha)
            by (nonlinear_arith)
            requires
                0 <= channel <= 255,
                0 <= alpha <= 255,
        ;
        let product: u32 = (channel as u32) * (alpha as u32);
        (product / 255) as u8
    }

    /// The colour dimmed by `alpha`: every channel, alpha included, is
    /// multiplied by `alpha / 255` and rounded toward zero.
    pub fn dim(self, alpha: u8) -> (dimmed: Color)
        ensures
            dimmed == self.scaled(alpha),
    {
        Color {
            r: Self::scale(self.r, alpha),
            g: Self::scale(self.g, alpha),
            b: Self::scale(self.b, alpha),
            a: Self::scale(self.a, alpha),
        }
    }
}

/// The pixel that `image` computes when it blends `top` onto `bottom` with
/// its `Pixel::blend` for `Rgba<u8>`. The computation is done in single
/// precision floating point; apart from the two cases spelled out in
/// [`over`], nothing is stated of its value.
pub uninterp spec fn blend_over(bottom: Color, top: Color) -> Color;

/// Straight alpha-over of one pixel: an invisible top pixel leaves the bottom
/// as it is, an opaque one replaces it, and anything between is blended.
pub open spec fn over(bottom: Color, top: Color) -> Color {
    if top.a == 0 {
        bottom
    } else if top.a == 255 {
        top
    } else {
        blend_over(bottom, top)
    }
}

} // verus!
