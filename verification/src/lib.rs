//! A verified model of a small point-sprite renderer.
//!
//! The library owns the decisions and the arithmetic of the pipeline: which
//! shader outcomes make a program, how a vertex buffer's host copy relates to
//! its GPU allocation, which draw ranges are in bounds, and the exact cells
//! of the camera-to-clip transform. Everything the GPU is told arrives as a
//! plain command value; issuing the graphics calls themselves is the thin
//! unverified shell around the library.

pub mod camera;
pub mod circle_program;
pub mod vbo;
