use crate::buffer::{PixelBuffer, Raster};
use crate::color::Color;
use crate::group::{span_x, span_y, views, DynamicCanvas};
use crate::layer::{Layer, Placed, PositionedLayer};
use crate::mask::{apply_mask, masked};
use crate::position::{half, Position};
use vstd::prelude::*;

verus! {

/// `layers` painted onto `base` one after the other, so that a later layer
/// covers an earlier one. A centred layer is centred on `base`: it stands
/// at half of what `base` leaves free, which is negative when the layer is
/// the larger one.
pub open spec fn stack(base: Raster, layers: Seq<Placed>) -> Raster
    decreases layers.len(),
{
    if layers.len() == 0 {
        base
    } else {
        let top = layers.last();
        stack(base, layers.drop_last()).paint(
            top.raster,
            top.x.resolve(base.width - top.raster.width),
            top.y.resolve(base.height - top.raster.height),
        )
    }
}

/// Where a child of extent `child` stands in a parent of extent `parent`
/// when a group is absorbed: the free space is taken as half the difference
/// of the two extents, and a centred child stands at half of that.
pub open spec fn anchor(pos: Position, parent: int, child: int) -> int {
    pos.resolve(half(parent - child))
}

/// The place of a group within a canvas of the given extent, by axis.
pub open spec fn outer_anchor(
    group: Seq<Placed>,
    width: int,
    height: int,
    pos_x: Position,
    pos_y: Position,
) -> (int, int) {
    (anchor(pos_x, width, span_x(group)), anchor(pos_y, height, span_y(group)))
}

/// The place of one layer of a group within the group, by axis.
pub open spec fn inner_anchor(group: Seq<Placed>, child: Placed) -> (int, int) {
    (
        anchor(child.x, span_x(group), child.raster.width),
        anchor(child.y, span_y(group), child.raster.height),
    )
}

/// Whether a group can be absorbed: its extent fits `u32` and the absolute
/// coordinates of all its layers fit `i32`.
pub open spec fn can_absorb(
    group: Seq<Placed>,
    width: int,
    height: int,
    pos_x: Position,
    pos_y: Position,
) -> bool {
    let outer = outer_anchor(group, width, height, pos_x, pos_y);
    &&& span_x(group) <= u32::MAX
    &&& span_y(group) <= u32::MAX
    &&& forall|i: int|
        0 <= i < group.len() ==> {
            let inner = inner_anchor(group, #[trigger] group[i]);
            &&& i32::MIN <= outer.0 + inner.0 <= i32::MAX
            &&& i32::MIN <= outer.1 + inner.1 <= i32::MAX
        }
}

/// The layers of a group as a canvas of the given extent holds them once it
/// has absorbed the group at `(pos_x, pos_y)`: each at the sum of the
/// group's anchor in the canvas and its own anchor in the group.
pub open spec fn absorbed(
    group: Seq<Placed>,
    width: int,
    height: int,
    pos_x: Position,
    pos_y: Position,
) -> Seq<Placed> {
    let outer = outer_anchor(group, width, height, pos_x, pos_y);
    group.map_values(
        |child: Placed|
            {
                let inner = inner_anchor(group, child);
                Placed {
                    raster: child.raster,
                    x: Position::Coord((outer.0 + inner.0) as i32),
                    y: Position::Coord((outer.1 + inner.1) as i32),
                }
            },
    )
}

/// What a canvas is: its extent, its layers in paint order and its mask.
/// The base under the layers is transparent and has every channel zero.
#[verifier::ext_equal]
pub struct CanvasView {
    pub width: int,
    pub height: int,
    pub layers: Seq<Placed>,
    pub mask: Option<Raster>,
}

impl CanvasView {
    /// The base of the canvas, before anything is painted.
    pub open spec fn base(self) -> Raster {
        Raster::filled(self.width, self.height, Color::clear())
    }

    /// The layers painted onto the base, without the mask.
    pub open spec fn flattened(self) -> Raster {
        stack(self.base(), self.layers)
    }

    /// The finished image: the flattened layers, seen through the mask if
    /// there is one.
    pub open spec fn rendered(self) -> Raster {
        match self.mask {
            Some(mask) => masked(self.flattened(), mask),
            None => self.flattened(),
        }
    }
}

/// A base of fixed extent, the layers to paint on it in order, and
/// optionally a mask for the result.
pub struct Canvas {
    base: Layer,
    layers: Vec<PositionedLayer>,
    mask: Option<PixelBuffer>,
}

impl View for Canvas {
    type V = CanvasView;

    closed spec fn view(&self) -> CanvasView {
        CanvasView {
            width: self.base@.width,
            height: self.base@.height,
            layers: views(self.layers@),
            mask: match self.mask {
                Some(mask) => Some(mask@),
                None => None,
            },
        }
    }
}

impl Canvas {
    #[verifier::type_invariant]
    spec fn base_is_clear(self) -> bool {
        self.base@ == Raster::filled(self.base@.width, self.base@.height, Color::clear())
    }

    /// An empty canvas of the given extent. The byte length of its base,
    /// four bytes to a pixel, must be one that a vector can have.
    pub fn new(width: u32, height: u32) -> (canvas: Canvas)
        requires
            4 * width * height <= isize::MAX,
        ensures
            canvas@ == (CanvasView {
                width: width as int,
                height: height as int,
                layers: Seq::empty(),
                mask: None,
            }),
    {
        let base = Layer::from_buffer(PixelBuffer::new(width, height));
        Canvas { base, layers: Vec::new(), mask: None }
    }

    /// The extent of a canvas, of each of its layers and of its mask is that
    /// of a buffer.
    pub proof fn view_in_range(&self)
        ensures
            0 <= self@.width <= u32::MAX,
            0 <= self@.height <= u32::MAX,
            forall|i: int|
                0 <= i < self@.layers.len() ==> (#[trigger] self@.layers[i]).raster.in_range(),
            self@.mask is Some ==> self@.mask->0.in_range(),
    {
        self.base.view_in_range();
        assert forall|i: int| 0 <= i < self@.layers.len() implies (#[trigger] self@.layers[
            i
        ]).raster.in_range() by {
            self.layers@[i].view_in_range();
        }
    }

    /// Appends a layer; it is painted after those already on the canvas.
    pub fn add_layer(&mut self, layer: Layer, pos_x: Position, pos_y: Position)
        ensures
            final(self)@ == (CanvasView {
                layers: old(self)@.layers.push(Placed { raster: layer@, x: pos_x, y: pos_y }),
                ..old(self)@
            }),
    {
        proof {
            use_type_invariant(&*self);
        }
        let mut layers = Vec::new();
        core::mem::swap(&mut self.layers, &mut layers);
        layers.push(PositionedLayer::new(layer, pos_x, pos_y));
        self.layers = layers;
    }

    /// Sets the mask, in place of any that was set before.
    pub fn set_mask(&mut self, mask: PixelBuffer)
        ensures
            final(self)@ == (CanvasView { mask: Some(mask@), ..old(self)@ }),
    {
        proof {
            use_type_invariant(&*self);
        }
        self.mask = Some(mask);
    }

    /// Whether this canvas can absorb `canvas` at `(pos_x, pos_y)`: whether
    /// the extent of the group and the absolute coordinates of its layers
    /// fit their integer types.
    pub fn can_absorb(&self, canvas: &DynamicCanvas, pos_x: Position, pos_y: Position) -> (ok:
        bool)
        ensures
            ok == can_absorb(canvas@, self@.width, self@.height, pos_x, pos_y),
    {
        if !canvas.fits() {
            return false;
        }
        let (width, height) = canvas.dimensions();
        let (base_width, base_height) = self.base.buffer().dimensions();
        let abs_pos_x = pos_x.to_coord(((base_width as i64 - width as i64) / 2) as i32);
        let abs_pos_y = pos_y.to_coord(((base_height as i64 - height as i64) / 2) as i32);
        let ghost group = canvas@;
        let ghost outer = outer_anchor(group, self@.width, self@.height, pos_x, pos_y);
        let members = canvas.layers();
        let mut i: usize = 0;
        while i < members.len()
            invariant
                i <= members@.len(),
                group == views(members@),
                width == span_x(group),
                height == span_y(group),
                group == canvas@,
                outer == outer_anchor(group, self@.width, self@.height, pos_x, pos_y),
                outer == (abs_pos_x as int, abs_pos_y as int),
                forall|k: int|
                    0 <= k < i ==> {
                        let inner = inner_anchor(group, #[trigger] group[k]);
                        &&& i32::MIN <= outer.0 + inner.0 <= i32::MAX
                        &&& i32::MIN <= outer.1 + inner.1 <= i32::MAX
                    },
            decreases members@.len() - i,
        {
            let member = &members[i];
            let (layer_width, layer_height) = member.layer().buffer().dimensions();
            let x = member.pos_x().to_coord(((width as i64 - layer_width as i64) / 2) as i32);
            let y = member.pos_y().to_coord(((height as i64 - layer_height as i64) / 2) as i32);
            let sum_x: i64 = abs_pos_x as i64 + x as i64;
            let sum_y: i64 = abs_pos_y as i64 + y as i64;
            assert(group[i as int] == member@);
            if sum_x < i32::MIN as i64 || sum_x > i32::MAX as i64 || sum_y < i32::MIN as i64
                || sum_y > i32::MAX as i64 {
                return false;
            }
            i += 1;
        }
        true
    }

    /// Absorbs a group placed at `(pos_x, pos_y)`: its layers are appended in
    /// their order, each at an absolute coordinate, the sum of the group's
    /// anchor on this canvas and the layer's anchor in the group (see
    /// [`anchor`]). The extent of the group and those sums must fit their
    /// integer types.
    pub fn add_dynamic_canvas(&mut self, canvas: DynamicCanvas, pos_x: Position, pos_y: Position)
        requires
            can_absorb(canvas@, old(self)@.width, old(self)@.height, pos_x, pos_y),
        ensures
            final(self)@ == (CanvasView {
                layers: old(self)@.layers + absorbed(
                    canvas@,
                    old(self)@.width,
                    old(self)@.height,
                    pos_x,
                    pos_y,
                ),
                ..old(self)@
            }),
    {
        proof {
            use_type_invariant(&*self);
        }
        let ghost before = self@;
        let ghost group = canvas@;
        let ghost moved = absorbed(group, before.width, before.height, pos_x, pos_y);
        let (width, height) = canvas.dimensions();
        let (base_width, base_height) = self.base.buffer().dimensions();
        let abs_pos_x = pos_x.to_coord(((base_width as i64 - width as i64) / 2) as i32);
        let abs_pos_y = pos_y.to_coord(((base_height as i64 - height as i64) / 2) as i32);
        let members = canvas.into_layers();
        for member in it: members
            invariant
                group == views(members@),
                it.seq() == members@,
                width == span_x(group),
                height == span_y(group),
                can_absorb(group, before.width, before.height, pos_x, pos_y),
                (abs_pos_x as int, abs_pos_y as int) == outer_anchor(
                    group,
                    before.width,
                    before.height,
                    pos_x,
                    pos_y,
                ),
                moved == absorbed(group, before.width, before.height, pos_x, pos_y),
                self@ == (CanvasView {
                    layers: before.layers + moved.take(it.index() as int),
                    ..before
                }),
        {
            let (layer_width, layer_height) = member.layer().buffer().dimensions();
            let x = member.pos_x().to_coord(((width as i64 - layer_width as i64) / 2) as i32);
            let y = member.pos_y().to_coord(((height as i64 - layer_height as i64) / 2) as i32);
            proof {
                let k = it.index() as int;
                assert(member@ == group[k]);
                assert(moved.take(k + 1) == moved.take(k).push(moved[k]));
            }
            self.add_layer(
                member.into_layer(),
                Position::Coord(abs_pos_x + x),
                Position::Coord(abs_pos_y + y),
            );
        }
        proof {
            assert(moved.take(moved.len() as int) == moved);
        }
    }

    /// Paints the layers onto the base in the order in which they were
    /// added, each clipped to the base, and applies the mask if one is set.
    pub fn rasterize(self) -> (out: Layer)
        ensures
            out@ == self@.rendered(),
    {
        proof {
            use_type_invariant(&self);
        }
        let ghost placed = self@.layers;
        let ghost start = self@.base();
        let Canvas { base, layers, mask } = self;
        let mut canvas = base.into_buffer();
        let (width, height) = canvas.dimensions();
        let mut i: usize = 0;
        while i < layers.len()
            invariant
                i <= layers@.len(),
                placed == views(layers@),
                start.width == width,
                start.height == height,
                canvas@ == stack(start, placed.take(i as int)),
            decreases layers@.len() - i,
        {
            let top = layers[i].layer().buffer();
            let (top_width, top_height) = top.dimensions();
            let x: i64 = match layers[i].pos_x() {
                Position::Coord(x) => x as i64,
                Position::Center => (width as i64 - top_width as i64) / 2,
            };
            let y: i64 = match layers[i].pos_y() {
                Position::Coord(y) => y as i64,
                Position::Center => (height as i64 - top_height as i64) / 2,
            };
            proof {
                assert(placed.take(i + 1).drop_last() == placed.take(i as int));
                assert(placed.take(i + 1).last() == layers@[i as int]@);
            }
            canvas.overlay(top, x, y);
            i += 1;
        }
        proof {
            assert(placed.take(i as int) == placed);
        }
        let flat = Layer::from_buffer(canvas);
        match mask {
            Some(mask) => apply_mask(flat, mask),
            None => flat,
        }
    }
}

} // verus!
