//! Verified core of a physics debug-line viewer: unpacking of packed debug
//! colours, conversion of a debug render buffer into strokes, and the layout
//! of the reference floor grid.

pub mod color_conv;
pub mod debug_render;
pub mod grid;
pub mod control;
