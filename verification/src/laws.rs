//! What holds of the model that the contracts speak of, whatever the layers
//! are.
use crate::buffer::Raster;
use crate::canvas::{absorbed, can_absorb, stack, CanvasView};
use crate::color::Color;
use crate::group::{span_x, span_y};
use crate::layer::Placed;
use crate::mask::masked;
use crate::position::Position;
use vstd::prelude::*;

verus! {

/// Painting keeps the extent of what is painted on.
pub proof fn stack_keeps_extent(base: Raster, layers: Seq<Placed>)
    ensures
        stack(base, layers).width == base.width,
        stack(base, layers).height == base.height,
    decreases layers.len(),
{
    if layers.len() > 0 {
        stack_keeps_extent(base, layers.drop_last());
    }
}

/// A canvas without layers and without a mask renders as its base: every
/// pixel within its extent is transparent with all channels zero.
pub proof fn empty_canvas_is_clear(canvas: CanvasView)
    requires
        canvas.layers.len() == 0,
        canvas.mask is None,
    ensures
        canvas.rendered() == Raster::filled(canvas.width, canvas.height, Color::clear()),
{
}

/// Later layers win: where the layer painted last has an opaque pixel, the
/// result shows that pixel, whatever the layers before it are.
pub proof fn opaque_top_wins(base: Raster, below: Seq<Placed>, top: Placed, i: int, j: int)
    requires
        base.contains(i, j),
        top.raster.contains(
            i - top.x.resolve(base.width - top.raster.width),
            j - top.y.resolve(base.height - top.raster.height),
        ),
        top.raster.at(
            i - top.x.resolve(base.width - top.raster.width),
            j - top.y.resolve(base.height - top.raster.height),
        ).a == 255,
    ensures
        stack(base, below.push(top)).at(i, j) == top.raster.at(
            i - top.x.resolve(base.width - top.raster.width),
            j - top.y.resolve(base.height - top.raster.height),
        ),
{
    let layers = below.push(top);
    assert(layers.drop_last() == below);
    assert(layers.last() == top);
    stack_keeps_extent(base, below);
}

/// Where the layer painted last has an invisible pixel, or none at all, the
/// result shows what the layers before it left there.
pub proof fn invisible_top_leaves_below(
    base: Raster,
    below: Seq<Placed>,
    top: Placed,
    i: int,
    j: int,
)
    requires
        base.contains(i, j),
        !top.raster.contains(
            i - top.x.resolve(base.width - top.raster.width),
            j - top.y.resolve(base.height - top.raster.height),
        ) || top.raster.at(
            i - top.x.resolve(base.width - top.raster.width),
            j - top.y.resolve(base.height - top.raster.height),
        ).a == 0,
    ensures
        stack(base, below.push(top)).at(i, j) == stack(base, below).at(i, j),
{
    let layers = below.push(top);
    assert(layers.drop_last() == below);
    assert(layers.last() == top);
    stack_keeps_extent(base, below);
}

/// Centring a child that fits its parent rounds down: the child stands at
/// the floor of half the free space, so the margin before it is the margin
/// after it or one less.
pub proof fn centre_rounds_down(parent: int, child: int)
    requires
        child <= parent,
    ensures
        Position::Center.resolve(parent - child) == (parent - child) / 2,
        Position::Center.resolve(parent - child) <= parent - child - Position::Center.resolve(
            parent - child,
        ) <= Position::Center.resolve(parent - child) + 1,
{
}

/// Centring a child larger than its parent rounds toward zero: the anchor
/// is negative or zero, and the overhang before the parent is the overhang
/// after it or one less.
pub proof fn centre_of_larger_child_rounds_up(parent: int, child: int)
    requires
        child > parent,
    ensures
        Position::Center.resolve(parent - child) == -((child - parent) / 2),
        -Position::Center.resolve(parent - child) <= child - parent + Position::Center.resolve(
            parent - child,
        ) <= -Position::Center.resolve(parent - child) + 1,
{
}

/// The width of a group is the largest right edge of its layers, and zero
/// when none lies right of the origin: it is no less than zero and than any
/// right edge, and it is zero or one of the right edges.
pub proof fn span_x_is_largest_edge(layers: Seq<Placed>)
    ensures
        span_x(layers) >= 0,
        forall|i: int| 0 <= i < layers.len() ==> (#[trigger] layers[i]).far_x() <= span_x(layers),
        span_x(layers) == 0 || exists|i: int|
            0 <= i < layers.len() && (#[trigger] layers[i]).far_x() == span_x(layers),
    decreases layers.len(),
{
    if layers.len() > 0 {
        let rest = layers.drop_last();
        span_x_is_largest_edge(rest);
        assert forall|i: int| 0 <= i < layers.len() implies (#[trigger] layers[i]).far_x()
            <= span_x(layers) by {
            if i < rest.len() {
                assert(rest[i] == layers[i]);
            }
        }
        if span_x(layers) != 0 {
            if layers.last().far_x() > span_x(rest) {
                assert(layers[layers.len() - 1].far_x() == span_x(layers));
            } else {
                let i = choose|i: int|
                    0 <= i < rest.len() && (#[trigger] rest[i]).far_x() == span_x(rest);
                assert(layers[i] == rest[i]);
            }
        }
    }
}

/// The height of a group is the largest lower edge of its layers, and zero
/// when none lies below the origin.
pub proof fn span_y_is_largest_edge(layers: Seq<Placed>)
    ensures
        span_y(layers) >= 0,
        forall|i: int| 0 <= i < layers.len() ==> (#[trigger] layers[i]).far_y() <= span_y(layers),
        span_y(layers) == 0 || exists|i: int|
            0 <= i < layers.len() && (#[trigger] layers[i]).far_y() == span_y(layers),
    decreases layers.len(),
{
    if layers.len() > 0 {
        let rest = layers.drop_last();
        span_y_is_largest_edge(rest);
        assert forall|i: int| 0 <= i < layers.len() implies (#[trigger] layers[i]).far_y()
            <= span_y(layers) by {
            if i < rest.len() {
                assert(rest[i] == layers[i]);
            }
        }
        if span_y(layers) != 0 {
            if layers.last().far_y() > span_y(rest) {
                assert(layers[layers.len() - 1].far_y() == span_y(layers));
            } else {
                let i = choose|i: int|
                    0 <= i < rest.len() && (#[trigger] rest[i]).far_y() == span_y(rest);
                assert(layers[i] == rest[i]);
            }
        }
    }
}

/// A group whose layers all end at or before the origin has extent zero.
pub proof fn span_of_layers_before_origin_is_zero(layers: Seq<Placed>)
    requires
        forall|i: int|
            0 <= i < layers.len() ==> (#[trigger] layers[i]).far_x() <= 0 && layers[i].far_y()
                <= 0,
    ensures
        span_x(layers) == 0,
        span_y(layers) == 0,
{
    span_x_is_largest_edge(layers);
    span_y_is_largest_edge(layers);
}

/// A group of one layer, centred on both axes, is as large as that layer,
/// so the layer has no room to move in it: absorbed at an offset, it lands
/// at that offset, and at the origin when the offset is zero.
pub proof fn lone_centred_child_lands_at_offset(
    child: Raster,
    width: int,
    height: int,
    x: i32,
    y: i32,
)
    requires
        0 <= child.width <= u32::MAX,
        0 <= child.height <= u32::MAX,
    ensures
        can_absorb(
            seq![Placed { raster: child, x: Position::Center, y: Position::Center }],
            width,
            height,
            Position::Coord(x),
            Position::Coord(y),
        ),
        absorbed(
            seq![Placed { raster: child, x: Position::Center, y: Position::Center }],
            width,
            height,
            Position::Coord(x),
            Position::Coord(y),
        ) == seq![Placed { raster: child, x: Position::Coord(x), y: Position::Coord(y) }],
{
    let group = seq![Placed { raster: child, x: Position::Center, y: Position::Center }];
    assert(group.drop_last() == Seq::<Placed>::empty());
    assert(span_x(group.drop_last()) == 0);
    assert(span_y(group.drop_last()) == 0);
    assert(group.last() == group[0]);
    assert(span_x(group) == child.width);
    assert(span_y(group) == child.height);
}

/// Scaling a channel by an alpha is the exact quotient rounded down: the
/// product of channel and alpha, divided by 255, with the remainder dropped.
/// It is never more than the channel or the alpha.
pub proof fn scale_rounds_down(channel: u8, alpha: u8)
    ensures
        255 * Color::scale_channel(channel, alpha) <= channel * alpha < 255 * (
        Color::scale_channel(channel, alpha) + 1),
        Color::scale_channel(channel, alpha) <= channel,
        Color::scale_channel(channel, alpha) <= alpha,
{
    assert(channel * alpha <= 255 * channel && channel * alpha <= 255 * alpha)
        by (nonlinear_arith)
        requires
            0 <= channel <= 255,
            0 <= alpha <= 255,
    ;
}

/// The result of masking has the extent of the mask, and where the image
/// has a pixel it shows that pixel with every channel, alpha included,
/// scaled by the alpha of the mask there.
pub proof fn mask_scales_pixel(image: Raster, mask: Raster, x: int, y: int)
    requires
        mask.contains(x, y),
        image.contains(x, y),
    ensures
        masked(image, mask).width == mask.width,
        masked(image, mask).height == mask.height,
        masked(image, mask).at(x, y) == image.at(x, y).scaled(mask.at(x, y).a),
{
}

/// A mask that is invisible at a pixel leaves nothing of the image there:
/// all four channels are zero.
pub proof fn invisible_mask_clears(image: Raster, mask: Raster, x: int, y: int)
    requires
        mask.contains(x, y),
        image.contains(x, y),
        mask.at(x, y).a == 0,
    ensures
        masked(image, mask).at(x, y) == Color::clear(),
{
}

/// Where the mask reaches beyond the image the result is transparent
/// white, whatever the mask holds there.
pub proof fn mask_beyond_image_is_transparent_white(image: Raster, mask: Raster, x: int, y: int)
    requires
        mask.contains(x, y),
        !image.contains(x, y),
    ensures
        masked(image, mask).at(x, y) == Color::transparent_white(),
{
}

/// Where the mask is opaque the image shows unchanged.
pub proof fn opaque_mask_keeps_pixel(image: Raster, mask: Raster, x: int, y: int)
    requires
        mask.contains(x, y),
        image.contains(x, y),
        mask.at(x, y).a == 255,
    ensures
        masked(image, mask).at(x, y) == image.at(x, y),
{
}

/// Only the alpha of a mask counts: two masks of one extent that agree in
/// alpha at every pixel give the same result.
pub proof fn mask_colour_is_ignored(image: Raster, first: Raster, second: Raster)
    requires
        first.width == second.width,
        first.height == second.height,
        forall|x: int, y: int|
            first.contains(x, y) ==> (#[trigger] first.at(x, y)).a == second.at(x, y).a,
    ensures
        masked(image, first) == masked(image, second),
{
    assert forall|p: (int, int)| masked(image, first).pixels.dom().contains(p) implies masked(
        image,
        first,
    ).pixels[p] == masked(image, second).pixels[p] by {
        assert(first.at(p.0, p.1).a == second.at(p.0, p.1).a);
    }
    assert(masked(image, first).pixels =~= masked(image, second).pixels);
}

/// An empty canvas under a mask that is opaque everywhere invents nothing:
/// within the canvas every pixel of the result has all channels zero, and
/// beyond it the result is transparent white.
pub proof fn opaque_mask_on_empty_canvas(canvas: CanvasView, x: int, y: int)
    requires
        canvas.layers.len() == 0,
        canvas.mask is Some,
        canvas.mask->0.contains(x, y),
        forall|i: int, j: int|
            canvas.mask->0.contains(i, j) ==> (#[trigger] canvas.mask->0.at(i, j)).a == 255,
    ensures
        canvas.rendered().width == canvas.mask->0.width,
        canvas.rendered().height == canvas.mask->0.height,
        canvas.rendered().at(x, y) == if 0 <= x < canvas.width && 0 <= y < canvas.height {
            Color::clear()
        } else {
            Color::transparent_white()
        },
{
    assert(canvas.mask->0.at(x, y).a == 255);
}

} // verus!
