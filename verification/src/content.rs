//! Content as it arrives from outside the renderer: imported models and
//! their materials.
pub mod obj_model;
