//! A minimal verified real-time 2D quad renderer.
//!
//! The library owns the render-pipeline lifecycle and the per-frame draw
//! protocol: GPU device and surface acquisition, pipeline and bind-group
//! construction, upload of a fixed-capacity storage buffer of quad records,
//! and a resize-safe frame-present cycle. The window event loop around it is
//! an external collaborator that calls in through two entry points: build a
//! renderer for a window, and draw a frame from a list of quads.

pub mod gpu;
pub mod quad;
pub mod render;
pub mod scene;
pub mod surface;
