//! A windowing and rendering runtime built around a GPU presentation surface.
//!
//! The crate keeps the surface configuration consistent with the window size
//! across resize and platform-suspend events, classifies frame-acquisition
//! failures, and drives a render-state implementation from platform callbacks
//! in a well-defined order.

pub mod app;
pub mod display;
pub mod lifecycle;
pub mod platform;

pub use lifecycle::SurfaceSize;
