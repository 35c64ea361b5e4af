//! Names that the programs and the renderers agree on.

use vstd::prelude::*;

verus! {

/// The uniform that takes an object's model transform.
pub const MODEL_TRANSFORM_UNIFORM_NAME: &'static str = "model_transform";

/// The uniform that takes the camera's view transform.
pub const VIEW_TRANSFORM_UNIFORM_NAME: &'static str = "view_transform";

/// The uniform that takes the camera's projection.
pub const PROJECTION_UNIFORM_NAME: &'static str = "projection";

/// The uniform of a simulation program that takes the time since the last frame.
pub const DELTA_TIME_UNIFORM_NAME: &'static str = "uDeltaTime";

} // verus!
