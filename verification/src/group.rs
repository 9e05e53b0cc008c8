use crate::laws::{span_x_is_largest_edge, span_y_is_largest_edge};
use crate::layer::{Layer, Placed, PositionedLayer};
use crate::position::Position;
use vstd::prelude::*;

verus! {

/// The width of a group: the largest right edge of its layers, and zero
/// when there is none to the right of the origin.
pub open spec fn span_x(layers: Seq<Placed>) -> int
    decreases layers.len(),
{
    if layers.len() == 0 {
        0
    } else {
        let rest = span_x(layers.drop_last());
        let edge = layers.last().far_x();
        if edge > rest {
            edge
        } else {
            rest
        }
    }
}

/// The height of a group: the largest lower edge of its layers, and zero
/// when there is none below the origin.
pub open spec fn span_y(layers: Seq<Placed>) -> int
    decreases layers.len(),
{
    if layers.len() == 0 {
        0
    } else {
        let rest = span_y(layers.drop_last());
        let edge = layers.last().far_y();
        if edge > rest {
            edge
        } else {
            rest
        }
    }
}

/// The views of a run of positioned layers, in order.
pub open spec fn views(layers: Seq<PositionedLayer>) -> Seq<Placed> {
    layers.map_values(|layer: PositionedLayer| layer@)
}

/// An ordered group of positioned layers without a buffer of its own. Its
/// extent follows from its layers, and it is placed as a whole when a canvas
/// absorbs it.
pub struct DynamicCanvas {
    layers: Vec<PositionedLayer>,
}

impl View for DynamicCanvas {
    type V = Seq<Placed>;

    closed spec fn view(&self) -> Seq<Placed> {
        views(self.layers@)
    }
}

impl DynamicCanvas {
    /// A group without layers.
    pub fn new() -> (group: DynamicCanvas)
        ensures
            group@ == Seq::<Placed>::empty(),
    {
        DynamicCanvas { layers: Vec::new() }
    }

    /// Appends a layer; it is painted after those already in the group.
    pub fn add_layer(&mut self, layer: Layer, pos_x: Position, pos_y: Position)
        ensures
            final(self)@ == old(self)@.push(Placed { raster: layer@, x: pos_x, y: pos_y }),
    {
        self.layers.push(PositionedLayer::new(layer, pos_x, pos_y));
    }

    /// The largest right edge among the layers, zero for an empty group or
    /// one that lies left of the origin. It must fit `u32`.
    pub fn width(&self) -> (width: u32)
        requires
            span_x(self@) <= u32::MAX,
        ensures
            width == span_x(self@),
    {
        let mut width: i64 = 0;
        let mut i: usize = 0;
        while i < self.layers.len()
            invariant
                i <= self.layers@.len(),
                0 <= width,
                width == span_x(self@.take(i as int)),
                self@ == views(self.layers@),
            decreases self.layers@.len() - i,
        {
            let placed = &self.layers[i];
            let extent: i64 = placed.layer().buffer().width() as i64;
            let edge: i64 = match placed.pos_x() {
                Position::Coord(x) => x as i64 + extent,
                Position::Center => extent,
            };
            proof {
                assert(self@.take(i + 1).drop_last() == self@.take(i as int));
                assert(self@.take(i + 1).last() == placed@);
            }
            if edge > width {
                width = edge;
            }
            i += 1;
        }
        proof {
            assert(self@.take(i as int) == self@);
        }
        width as u32
    }

    /// The largest lower edge among the layers, zero for an empty group or
    /// one that lies above the origin. It must fit `u32`.
    pub fn height(&self) -> (height: u32)
        requires
            span_y(self@) <= u32::MAX,
        ensures
            height == span_y(self@),
    {
        let mut height: i64 = 0;
        let mut i: usize = 0;
        while i < self.layers.len()
            invariant
                i <= self.layers@.len(),
                0 <= height,
                height == span_y(self@.take(i as int)),
                self@ == views(self.layers@),
            decreases self.layers@.len() - i,
        {
            let placed = &self.layers[i];
            let extent: i64 = placed.layer().buffer().height() as i64;
            let edge: i64 = match placed.pos_y() {
                Position::Coord(y) => y as i64 + extent,
                Position::Center => extent,
            };
            proof {
                assert(self@.take(i + 1).drop_last() == self@.take(i as int));
                assert(self@.take(i + 1).last() == placed@);
            }
            if edge > height {
                height = edge;
            }
            i += 1;
        }
        proof {
            assert(self@.take(i as int) == self@);
        }
        height as u32
    }

    /// Width and height. Both must fit `u32`.
    pub fn dimensions(&self) -> (d: (u32, u32))
        requires
            span_x(self@) <= u32::MAX,
            span_y(self@) <= u32::MAX,
        ensures
            d.0 == span_x(self@),
            d.1 == span_y(self@),
    {
        (self.width(), self.height())
    }

    /// The extent of every layer of a group is that of a buffer.
    pub proof fn view_in_range(&self)
        ensures
            forall|i: int| 0 <= i < self@.len() ==> (#[trigger] self@[i]).raster.in_range(),
    {
        assert forall|i: int| 0 <= i < self@.len() implies (#[trigger] self@[i]).raster.in_range() by {
            self.layers@[i].view_in_range();
        }
    }

    /// Whether the extent of the group fits `u32`, so that [`Self::width`],
    /// [`Self::height`] and [`Self::dimensions`] can be asked for.
    pub fn fits(&self) -> (ok: bool)
        ensures
            ok == (span_x(self@) <= u32::MAX && span_y(self@) <= u32::MAX),
    {
        proof {
            span_x_is_largest_edge(self@);
            span_y_is_largest_edge(self@);
        }
        let limit: i64 = u32::MAX as i64;
        let mut i: usize = 0;
        while i < self.layers.len()
            invariant
                i <= self.layers@.len(),
                limit == u32::MAX,
                self@ == views(self.layers@),
                forall|k: int|
                    0 <= k < i ==> (#[trigger] self@[k]).far_x() <= limit && self@[k].far_y()
                        <= limit,
                forall|k: int|
                    0 <= k < self@.len() ==> (#[trigger] self@[k]).far_x() <= span_x(self@)
                        && self@[k].far_y() <= span_y(self@),
            decreases self.layers@.len() - i,
        {
            let placed = &self.layers[i];
            let (width, height) = placed.layer().buffer().dimensions();
            let right: i64 = match placed.pos_x() {
                Position::Coord(x) => x as i64 + width as i64,
                Position::Center => width as i64,
            };
            let lower: i64 = match placed.pos_y() {
                Position::Coord(y) => y as i64 + height as i64,
                Position::Center => height as i64,
            };
            assert(self@[i as int] == placed@);
            if right > limit || lower > limit {
                return false;
            }
            i += 1;
        }
        true
    }

    /// The layers, in paint order.
    pub fn layers(&self) -> (layers: &Vec<PositionedLayer>)
        ensures
            views(layers@) == self@,
    {
        &self.layers
    }

    /// Gives up the group for its layers, in paint order.
    pub fn into_layers(self) -> (layers: Vec<PositionedLayer>)
        ensures
            views(layers@) == self@,
    {
        self.layers
    }
}

} // verus!
