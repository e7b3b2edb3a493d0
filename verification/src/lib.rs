//! A minimal real-time rendering front end.
//!
//! An application accumulates draw requests for one frame, and the renderer
//! translates that list into a plan of GPU commands, managing per-draw buffer
//! resources across frames and the presentation surface across resizes and
//! transient losses.

pub mod app;
pub mod frame;
pub mod laws;
pub mod mesh;
pub mod cache;
pub mod renderer;
pub mod slot;
pub mod surface;
