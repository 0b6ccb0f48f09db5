//! Plain fixed-point vectors.

use vstd::prelude::*;

verus! {

use crate::fixed::{UNIT, scalar_in_range, spec_lerp, lerp};

/// A three-component vector of fixed-point scalars.
#[derive(Clone, Copy, PartialEq, Eq, Structural, Debug)]
pub struct Vector {
    pub x: i64,
    pub y: i64,
    pub z: i64,
}

/// A two-component vector of fixed-point scalars.
#[derive(Clone, Copy, PartialEq, Eq, Structural, Debug)]
pub struct Vec2 {
    pub x: i64,
    pub y: i64,
}

/// All components within the scalar range the library accepts.
pub open spec fn vector_in_range(v: Vector) -> bool {
    scalar_in_range(v.x as int) && scalar_in_range(v.y as int) && scalar_in_range(v.z as int)
}

/// All components within the scalar range the library accepts.
pub open spec fn vec2_in_range(v: Vec2) -> bool {
    scalar_in_range(v.x as int) && scalar_in_range(v.y as int)
}

impl Vector {
    pub fn new(x: i64, y: i64, z: i64) -> (r: Vector)
        ensures r == (Vector { x, y, z }),
    {
        Vector { x, y, z }
    }

    /// The zero vector.
    pub fn zeros() -> (r: Vector)
        ensures r == (Vector { x: 0i64, y: 0i64, z: 0i64 }),
    {
        Vector { x: 0, y: 0, z: 0 }
    }

    /// The vector standing for `(1, 1, 1)`.
    pub fn ones() -> (r: Vector)
        ensures r == (Vector { x: UNIT, y: UNIT, z: UNIT }),
    {
        Vector { x: UNIT, y: UNIT, z: UNIT }
    }

    /// Componentwise interpolation toward `other` by the weight `w`.
    pub fn lerp(&self, other: &Vector, w: i64) -> (r: Vector)
        requires
            0 <= w <= UNIT,
            vector_in_range(*self),
            vector_in_range(*other),
        ensures
            r.x as int == spec_lerp(self.x as int, other.x as int, w as int),
            r.y as int == spec_lerp(self.y as int, other.y as int, w as int),
            r.z as int == spec_lerp(self.z as int, other.z as int, w as int),
            vector_in_range(r),
            w == 0 ==> r == *self,
            w == UNIT ==> r == *other,
    {
        Vector {
            x: lerp(self.x, other.x, w),
            y: lerp(self.y, other.y, w),
            z: lerp(self.z, other.z, w),
        }
    }
}

impl Vec2 {
    pub fn new(x: i64, y: i64) -> (r: Vec2)
        ensures r == (Vec2 { x, y }),
    {
        Vec2 { x, y }
    }

    /// The zero vector.
    pub fn zeros() -> (r: Vec2)
        ensures r == (Vec2 { x: 0i64, y: 0i64 }),
    {
        Vec2 { x: 0, y: 0 }
    }

    /// The vector standing for `(1, 1)`.
    pub fn ones() -> (r: Vec2)
        ensures r == (Vec2 { x: UNIT, y: UNIT }),
    {
        Vec2 { x: UNIT, y: UNIT }
    }

    /// Componentwise interpolation toward `other` by the weight `w`.
    pub fn lerp(&self, other: &Vec2, w: i64) -> (r: Vec2)
        requires
            0 <= w <= UNIT,
            vec2_in_range(*self),
            vec2_in_range(*other),
        ensures
            r.x as int == spec_lerp(self.x as int, other.x as int, w as int),
            r.y as int == spec_lerp(self.y as int, other.y as int, w as int),
            vec2_in_range(r),
            w == 0 ==> r == *self,
            w == UNIT ==> r == *other,
    {
        Vec2 {
            x: lerp(self.x, other.x, w),
            y: lerp(self.y, other.y, w),
        }
    }
}

} // verus!
