//! Deferred drawing: a frame's update hands back what to draw and where.

use vstd::prelude::*;
use crate::pose::Pose;

verus! {

/// Names a mesh that the renderer has loaded.
#[derive(Clone, Copy, Debug, PartialEq, Eq, Structural)]
pub struct MeshHandle {
    pub id: u32,
}

/// One mesh to draw at one pose.
#[derive(Clone, Copy, Debug, PartialEq, Eq, Structural)]
pub struct DrawCommand {
    pub mesh: MeshHandle,
    pub pose: Pose,
}

} // verus!
