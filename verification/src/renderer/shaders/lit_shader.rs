//! Limits of the standard lighting shader, which renders objects with Phong
//! lighting. The shader source declares arrays of exactly these sizes.
use vstd::prelude::*;

verus! {

/// The maximum number of point lights that can be specified per model.
pub const MAX_POINT_LIGHTS: usize = 4;

/// The maximum number of directional lights that can be specified per frame.
pub const MAX_DIRECTIONAL_LIGHTS: usize = 3;

/// The maximum number of spot lights that can be specified per frame.
pub const MAX_SPOT_LIGHTS: usize = 2;

} // verus!
