//! CPU-side core of a small real-time renderer: mirrored uniform state with
//! dirty tracking, the scene / model / mesh data model, per-frame preparation
//! and pass sequencing, and the camera and input state that feed them.
//!
//! The crate never touches a GPU or a window. It decides what has to be
//! uploaded and drawn and in which order; a thin host layer performs those
//! actions against the graphics backend.
pub mod camera;
pub mod content;
pub mod game_app;
pub mod gameplay;
pub mod input;
pub mod math;
pub mod renderer;
