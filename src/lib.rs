//! Rendering core of a photo-frame display: colors, geometry, CPU pixel
//! buffers, the draw-state machine, the command-recording drawer and the
//! glyph cache with its word-wrap layout, plus the small value types and
//! decisions of the display around it.

pub mod backend;
pub mod clock;
pub mod color;
pub mod config;
pub mod draw_state;
pub mod drawer;
pub mod font;
pub mod geometry;
pub mod input;
pub mod pos;
pub mod state;
pub mod texture;
pub mod wrap;
