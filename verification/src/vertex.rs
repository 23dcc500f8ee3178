//! Geometry records: fixed-point 2- and 3-vectors and the vertex record
//! carried through the pipeline.

use vstd::prelude::*;
use crate::color::Color;
use crate::fixed::fx_valid;

verus! {

/// A 3-vector of fixed-point scalars.
#[derive(Clone, Copy, PartialEq, Eq, Structural, Debug)]
pub struct Vec3Fx {
    pub x: i64,
    pub y: i64,
    pub z: i64,
}

/// A 2-vector of fixed-point scalars.
#[derive(Clone, Copy, PartialEq, Eq, Structural, Debug)]
pub struct Vec2Fx {
    pub x: i64,
    pub y: i64,
}

/// All components in the fixed-point range.
pub open spec fn vec3_valid(v: Vec3Fx) -> bool {
    fx_valid(v.x) && fx_valid(v.y) && fx_valid(v.z)
}

/// All components in the fixed-point range.
pub open spec fn vec2_valid(v: Vec2Fx) -> bool {
    fx_valid(v.x) && fx_valid(v.y)
}

impl Vec3Fx {
    /// A 3-vector from its components.
    pub fn new(x: i64, y: i64, z: i64) -> (v: Vec3Fx)
        ensures
            v == (Vec3Fx { x, y, z }),
    {
        Vec3Fx { x, y, z }
    }

    /// The zero vector.
    pub fn zero() -> (v: Vec3Fx)
        ensures
            v == (Vec3Fx { x: 0, y: 0, z: 0 }),
    {
        Vec3Fx { x: 0, y: 0, z: 0 }
    }
}

impl Vec2Fx {
    /// A 2-vector from its components.
    pub fn new(x: i64, y: i64) -> (v: Vec2Fx)
        ensures
            v == (Vec2Fx { x, y }),
    {
        Vec2Fx { x, y }
    }
}

/// A mesh vertex: object-space fields set by the loader, screen-space
/// fields produced by the transform stage. A vertex is a value; the
/// transform stage returns a new one rather than mutating in place.
#[derive(Clone, Copy, PartialEq, Eq, Structural, Debug)]
pub struct Vertex {
    pub position: Vec3Fx,
    pub normal: Vec3Fx,
    pub tex_coords: Vec2Fx,
    pub color: Color,
    pub transformed_position: Vec3Fx,
    pub transformed_normal: Vec3Fx,
}

/// All fields of the vertex hold well-formed fixed-point scalars.
pub open spec fn vertex_valid(v: Vertex) -> bool {
    &&& vec3_valid(v.position)
    &&& vec3_valid(v.normal)
    &&& vec2_valid(v.tex_coords)
    &&& vec3_valid(v.transformed_position)
    &&& vec3_valid(v.transformed_normal)
}

impl Vertex {
    /// A fresh object-space vertex; the transformed fields start at zero
    /// and carry no meaning until the transform stage has run.
    pub fn new(position: Vec3Fx, normal: Vec3Fx, tex_coords: Vec2Fx) -> (v: Vertex)
        ensures
            v == (Vertex {
                position,
                normal,
                tex_coords,
                color: Color { r: 0, g: 0, b: 0 },
                transformed_position: Vec3Fx { x: 0, y: 0, z: 0 },
                transformed_normal: Vec3Fx { x: 0, y: 0, z: 0 },
            }),
    {
        Vertex {
            position,
            normal,
            tex_coords,
            color: Color { r: 0, g: 0, b: 0 },
            transformed_position: Vec3Fx { x: 0, y: 0, z: 0 },
            transformed_normal: Vec3Fx { x: 0, y: 0, z: 0 },
        }
    }
}

} // verus!
