//! A drawing backend that turns plotting primitives into commands of a
//! retained vector scene.
//!
//! Pixels, lines, rectangles, paths, circles, polygons, bitmaps and text
//! arrive in integer device coordinates. Each is turned into one command of
//! a [`scene::Scene`]: a fill, a stroke, an image or a run of text, with its
//! geometry, its style and its brush.
//!
//! Everything here is exact. Scene positions are kept in half pixels, so that
//! the centre of a pixel is a whole number, and the floating-point values that
//! cross the interface (a colour's alpha, a font size, the extent of laid-out
//! text) are carried as their IEEE 754 bit patterns and read with whole-number
//! arithmetic.

pub mod backend;
pub mod color;
pub mod geometry;
pub mod ieee;
pub mod masonry;
pub mod scene;
pub mod text;

pub use backend::{Error, VelloBackend};
pub use color::{plotters_color_to_peniko, BackendColor, BackendStyle};
pub use geometry::{
    plotters_path_to_kurbo, plotters_point_to_kurbo_corner, plotters_point_to_kurbo_mid, BackendCoord,
    Circle, Line, PathEl, PlottersPathToKurbo, Point, Rect,
};
pub use ieee::{ceil_to_u32, times_256_to_u8};
pub use masonry::MasonryBackend;
pub use scene::{Cap, Fill, Image, ImageFormat, Scene, SceneCommand, Shape, Stroke, Transform};
pub use text::{
    font_stack, layout_request, measured_size, place_text, style_property, FontFamily, FontStack,
    FontStyle, FontTransform, GenericFamily, HPos, HalfSide, LayoutExtent, LayoutRequest, Pos, Side,
    Slant, StyleProperty, TextPlacement, TextStyle, Turn, VPos, Weight,
};
