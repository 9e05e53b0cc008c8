use gfx_layers::{Canvas, Color, DynamicCanvas, Layer, PixelBuffer, Position};

const CLEAR: Color = Color { r: 0, g: 0, b: 0, a: 0 };
const RED: Color = Color { r: 255, g: 0, b: 0, a: 255 };
const GREEN: Color = Color { r: 0, g: 255, b: 0, a: 255 };
const BLUE: Color = Color { r: 0, g: 0, b: 255, a: 255 };

fn solid_layer(width: u32, height: u32, color: Color) -> Layer {
    let mut buffer = PixelBuffer::new(width, height);
    for y in 0..height {
        for x in 0..width {
            buffer.put_pixel(x, y, color);
        }
    }
    Layer::from_buffer(buffer)
}

/// The columns of row `y` that show `color`, as first and one past last.
fn columns_of(layer: &Layer, y: u32, color: Color) -> Option<(u32, u32)> {
    let buffer = layer.buffer();
    let shown: Vec<u32> = (0..buffer.width()).filter(|x| buffer.get_pixel(*x, y) == color).collect();
    match (shown.first(), shown.last()) {
        (Some(first), Some(last)) => {
            assert_eq!(shown.len() as u32, last - first + 1);
            Some((*first, last + 1))
        }
        _ => None,
    }
}

/// The rows of column `x` that show `color`, as first and one past last.
fn rows_of(layer: &Layer, x: u32, color: Color) -> Option<(u32, u32)> {
    let buffer = layer.buffer();
    let shown: Vec<u32> = (0..buffer.height()).filter(|y| buffer.get_pixel(x, *y) == color).collect();
    match (shown.first(), shown.last()) {
        (Some(first), Some(last)) => {
            assert_eq!(shown.len() as u32, last - first + 1);
            Some((*first, last + 1))
        }
        _ => None,
    }
}

#[test]
fn empty_canvas_rasterizes_to_transparent() {
    let out = Canvas::new(7, 5).rasterize();
    assert_eq!(out.buffer().dimensions(), (7, 5));
    for y in 0..5 {
        for x in 0..7 {
            assert_eq!(out.buffer().get_pixel(x, y), CLEAR);
        }
    }
}

#[test]
fn canvas_without_pixels_rasterizes() {
    let out = Canvas::new(0, 0).rasterize();
    assert_eq!(out.buffer().dimensions(), (0, 0));
    let mut flat = Canvas::new(0, 3);
    flat.add_layer(solid_layer(2, 2, RED), Position::Center, Position::Center);
    assert_eq!(flat.rasterize().buffer().dimensions(), (0, 3));
}

#[test]
fn later_layer_wins_where_layers_overlap() {
    let mut canvas = Canvas::new(6, 6);
    canvas.add_layer(solid_layer(4, 4, RED), Position::Coord(1), Position::Coord(1));
    canvas.add_layer(solid_layer(4, 4, BLUE), Position::Coord(1), Position::Coord(1));
    let out = canvas.rasterize();
    for y in 0..6 {
        for x in 0..6 {
            let covered = (1..5).contains(&x) && (1..5).contains(&y);
            assert_eq!(out.buffer().get_pixel(x, y), if covered { BLUE } else { CLEAR });
        }
    }
}

#[test]
fn earlier_layer_shows_where_the_later_one_ends() {
    let mut canvas = Canvas::new(6, 1);
    canvas.add_layer(solid_layer(4, 1, RED), Position::Coord(0), Position::Coord(0));
    canvas.add_layer(solid_layer(3, 1, BLUE), Position::Coord(2), Position::Coord(0));
    let out = canvas.rasterize();
    let row: Vec<Color> = (0..6).map(|x| out.buffer().get_pixel(x, 0)).collect();
    assert_eq!(row, vec![RED, RED, BLUE, BLUE, BLUE, CLEAR]);
}

#[test]
fn centred_child_of_even_free_space() {
    let mut canvas = Canvas::new(100, 3);
    canvas.add_layer(solid_layer(10, 1, RED), Position::Center, Position::Center);
    let out = canvas.rasterize();
    assert_eq!(columns_of(&out, 1, RED), Some((45, 55)));
    assert_eq!(columns_of(&out, 0, RED), None);
    assert_eq!(columns_of(&out, 2, RED), None);
}

#[test]
fn centred_child_of_odd_free_space() {
    let mut canvas = Canvas::new(100, 4);
    canvas.add_layer(solid_layer(11, 1, RED), Position::Center, Position::Center);
    let out = canvas.rasterize();
    assert_eq!(columns_of(&out, 1, RED), Some((44, 55)));
    assert_eq!(rows_of(&out, 50, RED), Some((1, 2)));
}

#[test]
fn centred_child_larger_than_the_canvas_is_clipped() {
    let mut layer = PixelBuffer::new(7, 1);
    for x in 0..7 {
        layer.put_pixel(x, 0, Color { r: x as u8, g: 0, b: 0, a: 255 });
    }
    let mut canvas = Canvas::new(2, 1);
    canvas.add_layer(Layer::from_buffer(layer), Position::Center, Position::Coord(0));
    let out = canvas.rasterize();
    assert_eq!(out.buffer().dimensions(), (2, 1));
    assert_eq!(out.buffer().get_pixel(0, 0), Color { r: 2, g: 0, b: 0, a: 255 });
    assert_eq!(out.buffer().get_pixel(1, 0), Color { r: 3, g: 0, b: 0, a: 255 });
}

#[test]
fn negative_coordinates_are_clipped() {
    let mut canvas = Canvas::new(4, 4);
    canvas.add_layer(solid_layer(3, 3, RED), Position::Coord(-2), Position::Coord(-1));
    canvas.add_layer(solid_layer(3, 3, GREEN), Position::Coord(3), Position::Coord(3));
    canvas.add_layer(solid_layer(3, 3, BLUE), Position::Coord(-3), Position::Coord(0));
    canvas.add_layer(solid_layer(3, 3, BLUE), Position::Coord(4), Position::Coord(0));
    canvas.add_layer(solid_layer(3, 3, BLUE), Position::Coord(i32::MIN), Position::Coord(i32::MAX));
    let out = canvas.rasterize();
    for y in 0..4 {
        for x in 0..4 {
            let expected = if x == 0 && y < 2 {
                RED
            } else if (x, y) == (3, 3) {
                GREEN
            } else {
                CLEAR
            };
            assert_eq!(out.buffer().get_pixel(x, y), expected);
        }
    }
}

#[test]
fn partly_transparent_layer_blends_with_what_is_below() {
    let mut canvas = Canvas::new(2, 1);
    canvas.add_layer(
        solid_layer(2, 1, Color { r: 10, g: 20, b: 30, a: 255 }),
        Position::Coord(0),
        Position::Coord(0),
    );
    canvas.add_layer(
        solid_layer(1, 1, Color { r: 200, g: 100, b: 50, a: 64 }),
        Position::Coord(1),
        Position::Coord(0),
    );
    let out = canvas.rasterize();
    assert_eq!(out.buffer().get_pixel(0, 0), Color { r: 10, g: 20, b: 30, a: 255 });
    assert_eq!(out.buffer().get_pixel(1, 0), Color { r: 57, g: 40, b: 35, a: 255 });
}

#[test]
fn lone_centred_child_of_a_group_lands_at_the_origin() {
    let mut group = DynamicCanvas::new();
    group.add_layer(solid_layer(10, 6, RED), Position::Center, Position::Center);
    assert_eq!(group.dimensions(), (10, 6));
    let mut canvas = Canvas::new(200, 200);
    assert!(canvas.can_absorb(&group, Position::Coord(0), Position::Coord(0)));
    canvas.add_dynamic_canvas(group, Position::Coord(0), Position::Coord(0));
    let out = canvas.rasterize();
    assert_eq!(columns_of(&out, 0, RED), Some((0, 10)));
    assert_eq!(rows_of(&out, 0, RED), Some((0, 6)));
}

#[test]
fn group_at_an_offset_moves_its_layers() {
    let mut group = DynamicCanvas::new();
    group.add_layer(solid_layer(4, 2, RED), Position::Coord(0), Position::Coord(0));
    group.add_layer(solid_layer(2, 2, BLUE), Position::Coord(10), Position::Coord(3));
    let mut canvas = Canvas::new(40, 20);
    canvas.add_dynamic_canvas(group, Position::Coord(5), Position::Coord(7));
    let out = canvas.rasterize();
    assert_eq!(columns_of(&out, 7, RED), Some((5, 9)));
    assert_eq!(rows_of(&out, 5, RED), Some((7, 9)));
    assert_eq!(columns_of(&out, 10, BLUE), Some((15, 17)));
    assert_eq!(rows_of(&out, 15, BLUE), Some((10, 12)));
}

#[test]
fn centred_layer_of_a_group_stands_at_a_quarter_of_the_free_space() {
    let mut group = DynamicCanvas::new();
    group.add_layer(solid_layer(40, 1, RED), Position::Coord(0), Position::Coord(0));
    group.add_layer(solid_layer(10, 1, BLUE), Position::Center, Position::Coord(1));
    assert_eq!(group.dimensions(), (40, 2));
    let mut canvas = Canvas::new(200, 10);
    canvas.add_dynamic_canvas(group, Position::Coord(100), Position::Coord(0));
    let out = canvas.rasterize();
    assert_eq!(columns_of(&out, 0, RED), Some((100, 140)));
    assert_eq!(columns_of(&out, 1, BLUE), Some((107, 117)));
}

#[test]
fn centred_group_stands_at_a_quarter_of_the_free_space() {
    let mut group = DynamicCanvas::new();
    group.add_layer(solid_layer(40, 2, RED), Position::Coord(0), Position::Coord(0));
    let mut canvas = Canvas::new(200, 21);
    canvas.add_dynamic_canvas(group, Position::Center, Position::Center);
    let out = canvas.rasterize();
    assert_eq!(columns_of(&out, 4, RED), Some((40, 80)));
    assert_eq!(rows_of(&out, 40, RED), Some((4, 6)));
}

#[test]
fn group_larger_than_the_canvas_gets_a_negative_anchor() {
    let mut group = DynamicCanvas::new();
    let mut strip = PixelBuffer::new(11, 1);
    for x in 0..11 {
        strip.put_pixel(x, 0, Color { r: x as u8, g: 0, b: 0, a: 255 });
    }
    group.add_layer(Layer::from_buffer(strip), Position::Coord(0), Position::Coord(0));
    let mut canvas = Canvas::new(4, 1);
    canvas.add_dynamic_canvas(group, Position::Center, Position::Coord(0));
    let out = canvas.rasterize();
    let row: Vec<u8> = (0..4).map(|x| out.buffer().get_pixel(x, 0).r).collect();
    assert_eq!(row, vec![1, 2, 3, 4]);
}

#[test]
fn absorbed_layers_are_painted_after_earlier_ones_in_group_order() {
    let mut canvas = Canvas::new(3, 1);
    canvas.add_layer(solid_layer(3, 1, GREEN), Position::Coord(0), Position::Coord(0));
    let mut group = DynamicCanvas::new();
    group.add_layer(solid_layer(2, 1, RED), Position::Coord(0), Position::Coord(0));
    group.add_layer(solid_layer(1, 1, BLUE), Position::Coord(0), Position::Coord(0));
    canvas.add_dynamic_canvas(group, Position::Coord(0), Position::Coord(0));
    let out = canvas.rasterize();
    let row: Vec<Color> = (0..3).map(|x| out.buffer().get_pixel(x, 0)).collect();
    assert_eq!(row, vec![BLUE, RED, GREEN]);
}

#[test]
fn empty_group_adds_nothing() {
    let mut canvas = Canvas::new(2, 2);
    assert!(canvas.can_absorb(&DynamicCanvas::new(), Position::Center, Position::Center));
    canvas.add_dynamic_canvas(DynamicCanvas::new(), Position::Center, Position::Center);
    let out = canvas.rasterize();
    for y in 0..2 {
        for x in 0..2 {
            assert_eq!(out.buffer().get_pixel(x, y), CLEAR);
        }
    }
}

#[test]
fn group_whose_coordinates_overflow_cannot_be_absorbed() {
    let canvas = Canvas::new(10, 10);
    let mut far = DynamicCanvas::new();
    far.add_layer(solid_layer(1, 1, RED), Position::Coord(1), Position::Coord(0));
    assert!(!canvas.can_absorb(&far, Position::Coord(i32::MAX), Position::Coord(0)));
    assert!(canvas.can_absorb(&far, Position::Coord(i32::MAX - 1), Position::Coord(0)));
    let mut low = DynamicCanvas::new();
    low.add_layer(solid_layer(1, 1, RED), Position::Coord(0), Position::Coord(-1));
    assert!(!canvas.can_absorb(&low, Position::Coord(0), Position::Coord(i32::MIN)));
    assert!(canvas.can_absorb(&low, Position::Coord(0), Position::Center));
    let mut wide = DynamicCanvas::new();
    wide.add_layer(
        Layer::from_buffer(PixelBuffer::new(u32::MAX, 0)),
        Position::Coord(1),
        Position::Coord(0),
    );
    assert!(!canvas.can_absorb(&wide, Position::Coord(0), Position::Coord(0)));
}

#[test]
fn mask_is_applied_after_the_layers() {
    let mut canvas = Canvas::new(2, 1);
    canvas.add_layer(solid_layer(2, 1, RED), Position::Coord(0), Position::Coord(0));
    let mut mask = PixelBuffer::new(3, 1);
    mask.put_pixel(0, 0, Color { r: 0, g: 0, b: 0, a: 255 });
    mask.put_pixel(2, 0, Color { r: 0, g: 0, b: 0, a: 255 });
    canvas.set_mask(mask);
    let out = canvas.rasterize();
    assert_eq!(out.buffer().dimensions(), (3, 1));
    assert_eq!(out.buffer().get_pixel(0, 0), RED);
    assert_eq!(out.buffer().get_pixel(1, 0), CLEAR);
    assert_eq!(out.buffer().get_pixel(2, 0), Color { r: 255, g: 255, b: 255, a: 0 });
}

#[test]
fn second_mask_replaces_the_first() {
    let mut canvas = Canvas::new(1, 1);
    canvas.add_layer(solid_layer(1, 1, RED), Position::Coord(0), Position::Coord(0));
    canvas.set_mask(PixelBuffer::new(5, 5));
    let mut opaque = PixelBuffer::new(1, 1);
    opaque.put_pixel(0, 0, Color { r: 7, g: 7, b: 7, a: 255 });
    canvas.set_mask(opaque);
    let out = canvas.rasterize();
    assert_eq!(out.buffer().dimensions(), (1, 1));
    assert_eq!(out.buffer().get_pixel(0, 0), RED);
}

#[test]
fn empty_canvas_under_an_opaque_mask_stays_transparent() {
    let mut canvas = Canvas::new(3, 2);
    let mut mask = PixelBuffer::new(3, 2);
    for y in 0..2 {
        for x in 0..3 {
            mask.put_pixel(x, y, Color { r: 200, g: 100, b: 50, a: 255 });
        }
    }
    canvas.set_mask(mask);
    let out = canvas.rasterize();
    assert_eq!(out.buffer().dimensions(), (3, 2));
    for y in 0..2 {
        for x in 0..3 {
            assert_eq!(out.buffer().get_pixel(x, y), CLEAR);
        }
    }
}
