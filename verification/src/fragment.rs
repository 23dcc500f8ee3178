//! The fragment record: one covered pixel of a rasterized triangle with its
//! interpolated attributes.

use vstd::prelude::*;
use crate::fixed::{fx_valid, normal_valid, FX_ONE};
use crate::vertex::Vec3Fx;

verus! {

/// A rasterizer sample: integer screen position, interpolated depth,
/// interpolated object-space position (the signal procedural shaders
/// sample), interpolated normal, and a diffuse lighting intensity.
#[derive(Clone, Copy, PartialEq, Eq, Structural, Debug)]
pub struct Fragment {
    pub x: usize,
    pub y: usize,
    pub depth: i64,
    pub vertex_position: Vec3Fx,
    pub normal: Vec3Fx,
    pub intensity: i64,
}

/// Every attribute of the fragment is in its range: fixed-point depth and
/// position, bounded normal, intensity in [0, 1].
pub open spec fn fragment_valid(f: Fragment) -> bool {
    &&& fx_valid(f.depth)
    &&& fx_valid(f.vertex_position.x)
    &&& fx_valid(f.vertex_position.y)
    &&& fx_valid(f.vertex_position.z)
    &&& normal_valid(f.normal.x)
    &&& normal_valid(f.normal.y)
    &&& normal_valid(f.normal.z)
    &&& 0 <= f.intensity <= FX_ONE
}

impl Fragment {
    /// A fragment from its parts.
    pub fn new(
        x: usize,
        y: usize,
        depth: i64,
        vertex_position: Vec3Fx,
        normal: Vec3Fx,
        intensity: i64,
    ) -> (f: Fragment)
        ensures
            f == (Fragment { x, y, depth, vertex_position, normal, intensity }),
    {
        Fragment { x, y, depth, vertex_position, normal, intensity }
    }
}

} // verus!
