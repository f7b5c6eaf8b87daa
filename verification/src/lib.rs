//! Logic of a small offscreen-rendering GUI template: a fixed-size texture is
//! drawn by the GPU each frame and shown in an immediate-mode panel, with
//! middle-button panning.
//!
//! The library holds everything that can be decided or computed without
//! touching the GPU or the windowing system: the pan-offset bookkeeping, the
//! geometry of the texture readback, the per-frame command sequence that the
//! renderer submits, the startup and per-frame fault decisions, and the fixed
//! configuration values. The surrounding application performs the GPU and UI
//! calls that these decisions drive.

pub mod config;
pub mod frame;
pub mod pan;
pub mod readback;
pub mod startup;
pub mod state;
