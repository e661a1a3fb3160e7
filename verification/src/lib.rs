//! An interactive 2D vector drawing surface.
//!
//! A user sketches axis-aligned rectangles by dragging the pointer across a
//! normalized square canvas; committed shapes, together with an optional
//! in-progress preview rectangle and a decorative background grid, are
//! compiled into GPU-ready layers (vertex data, index data, shader selection,
//! uniform values) that a rendering backend draws in order.
//!
//! All coordinates and colors are fixed-point values in thousandths: the
//! normalized device space `[-1, 1]` maps to `[-1000, 1000]`, and a color
//! channel value of `1000` means full intensity.  This keeps every geometric
//! computation exact.
//!
//! The crate contains the platform-independent core: the geometry compiler,
//! the shader-source table and program cache bookkeeping, the scene
//! compositor, and the drawing state machine.  Window creation, the event
//! loop, and the GPU calls themselves belong to the surrounding application.

pub mod logic;
pub mod models;
pub mod shaders;
