//! Layer compositing on fixed-size RGBA canvases.
//!
//! Layers are pixel grids. They are placed on a [`Canvas`] at absolute or
//! centred positions, optionally grouped in a [`DynamicCanvas`] that is
//! positioned as one unit, and flattened into a single layer, which an
//! optional mask then cuts out.
pub mod buffer;
pub mod canvas;
pub mod color;
pub mod group;
pub mod laws;
pub mod layer;
pub mod mask;
pub mod position;

pub use buffer::{PixelBuffer, Raster};
pub use canvas::{Canvas, CanvasView};
pub use color::Color;
pub use group::DynamicCanvas;
pub use layer::{Layer, Placed, PositionedLayer, ResizeError};
pub use mask::apply_mask;
pub use position::Position;
