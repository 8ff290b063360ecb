//! Interactive "tool" pens for a freehand drawing canvas: a laser-pointer
//! annotation tool whose strokes fade out over time, a vertical-space
//! insertion tool, a camera-pan tool, a zoom tool, and a measuring ruler.
//!
//! All geometry is carried in fixed-point integers: lengths and positions in
//! thousandths of a document unit, zoom factors in thousandths, and times in
//! milliseconds. Every entry point states its effect as a contract over these
//! plain values.

pub mod camera;
pub mod config;
pub mod document;
pub mod engine;
pub mod events;
pub mod laser;
pub mod geometry;
pub mod num;
pub mod penpath;
pub mod store;
pub mod toolholder;
pub mod tools;
pub mod widget_flags;
