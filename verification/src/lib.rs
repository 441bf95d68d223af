//! A declarative 2D vector renderer: circles, lines, rectangles, polygons
//! and (unrasterized) text, composited in order onto a fixed-size RGBA8
//! canvas.
//!
//! Geometry is fixed-point — integer subpixel units on a 1/256-pixel grid
//! — so path construction, style resolution and compositing order are
//! stated and proved exactly; the scan conversion itself is delegated to
//! a rasterizer behind a small trusted boundary.

pub mod canvas;
pub mod data_sources;
pub mod path;
pub mod primitives;
pub mod renderer;
pub mod skia;
pub mod style;
