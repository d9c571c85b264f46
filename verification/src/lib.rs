//! The presentation pipeline of a single-window renderer, as the decisions it
//! makes: which surface format and configuration to use, how the render
//! pipeline is laid out, what each frame uploads and draws, and how resize and
//! redraw events move the renderer between its states.
//!
//! The GPU and the window are driven by the caller; this crate decides what
//! they are asked to do.

pub mod app;
pub mod config;
pub mod format;
pub mod model;
pub mod pipeline;
pub mod gpupipeline;
