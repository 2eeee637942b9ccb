//! Core of a small interactive demo: a host window shows a draggable canvas,
//! dragging accumulates a rotation angle, and each frame a colored triangle is
//! drawn with that absolute rotation about the vertical axis.
//!
//! The windowing toolkit and the 3-D renderer work in floating point, which
//! stays at the application edge.  This crate holds the demo's decisions on
//! exact fixed-point values instead: lengths in milliunits (thousandths of a
//! pixel or scene unit) and angles in microradians.  The application converts
//! at the boundary and issues the actual draw calls.

pub mod camera;
pub mod laws;
pub mod mesh;
pub mod pixels;
pub mod renderer;
pub mod shell;
pub mod viewport;
