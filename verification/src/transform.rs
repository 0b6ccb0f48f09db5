//! Affine transform matrices over fixed-point scalars, and the poses they
//! are composed from.
//!
//! A pose is a triple of scale, position and rotation; the matrix of a pose
//! is always the product `Scale x Translation x Rotation` in that fixed
//! order.  Rotation factors take the cosine and sine of the angle as plain
//! fixed-point arguments, so matrix construction itself stays exact.

use vstd::prelude::*;

verus! {

use crate::fixed::{
    UNIT, scalar_in_range, spec_fmul, scale_down, fmul,
    lemma_abs_product, lemma_fmul_magnitude, lemma_fmul_basics, lemma_scale_down_exact,
};
use crate::math::{Vector, Vec2, vector_in_range, vec2_in_range};

/// Largest magnitude a matrix entry may have to take part in a product.
pub const MAT_LIMIT: i64 = 0x8000_0000;

/// Largest magnitude accepted for a pose's scale components.
pub const SCALE_LIMIT: i64 = 0x80_0000;

/// Largest magnitude accepted for a pose's position components.
pub const OFFSET_LIMIT: i64 = 0x100_0000;

/// Largest magnitude accepted for a cosine or sine argument.
pub const TRIG_LIMIT: i64 = 2 * 65536;

/// A 3 x 3 matrix of fixed-point scalars (2D affine transforms).
#[derive(Clone, Copy, PartialEq, Eq, Structural, Debug)]
pub struct Mat3 {
    pub m11: i64, pub m12: i64, pub m13: i64,
    pub m21: i64, pub m22: i64, pub m23: i64,
    pub m31: i64, pub m32: i64, pub m33: i64,
}

/// A 4 x 4 matrix of fixed-point scalars (3D affine transforms).
#[derive(Clone, Copy, PartialEq, Eq, Structural, Debug)]
pub struct Mat4 {
    pub m11: i64, pub m12: i64, pub m13: i64, pub m14: i64,
    pub m21: i64, pub m22: i64, pub m23: i64, pub m24: i64,
    pub m31: i64, pub m32: i64, pub m33: i64, pub m34: i64,
    pub m41: i64, pub m42: i64, pub m43: i64, pub m44: i64,
}

/// The scale, position and rotation angle of a 2D entity.
#[derive(Clone, Copy, PartialEq, Eq, Structural, Debug)]
pub struct Pose2 {
    pub scale: Vec2,
    pub position: Vec2,
    pub rotation: i64,
}

/// The scale, position and rotation angles of a 3D entity.
#[derive(Clone, Copy, PartialEq, Eq, Structural, Debug)]
pub struct Pose3 {
    pub scale: Vector,
    pub position: Vector,
    pub rotation: Vector,
}

/// The parameters a perspective projection is rebuilt from each step.
#[derive(Clone, Copy, PartialEq, Eq, Structural, Debug)]
pub struct PerspectiveParams {
    pub aspect: i64,
    pub fov: i64,
    pub near: i64,
    pub far: i64,
}

/// The parameters an orthographic projection is rebuilt from each step.
#[derive(Clone, Copy, PartialEq, Eq, Structural, Debug)]
pub struct OrthographicParams {
    pub left: i64,
    pub right: i64,
    pub bottom: i64,
    pub top: i64,
    pub near: i64,
    pub far: i64,
}

/// All entries of the matrix within `[-b, b]`.
pub open spec fn mat3_in_range(m: Mat3, b: int) -> bool {
    &&& -b <= m.m11 <= b &&& -b <= m.m12 <= b &&& -b <= m.m13 <= b
    &&& -b <= m.m21 <= b &&& -b <= m.m22 <= b &&& -b <= m.m23 <= b
    &&& -b <= m.m31 <= b &&& -b <= m.m32 <= b &&& -b <= m.m33 <= b
}

/// All entries of the matrix within `[-b, b]`.
pub open spec fn mat4_in_range(m: Mat4, b: int) -> bool {
    &&& -b <= m.m11 <= b &&& -b <= m.m12 <= b &&& -b <= m.m13 <= b &&& -b <= m.m14 <= b
    &&& -b <= m.m21 <= b &&& -b <= m.m22 <= b &&& -b <= m.m23 <= b &&& -b <= m.m24 <= b
    &&& -b <= m.m31 <= b &&& -b <= m.m32 <= b &&& -b <= m.m33 <= b &&& -b <= m.m34 <= b
    &&& -b <= m.m41 <= b &&& -b <= m.m42 <= b &&& -b <= m.m43 <= b &&& -b <= m.m44 <= b
}

/// A pose whose components are small enough to compose into a matrix.
pub open spec fn pose2_in_range(p: Pose2) -> bool {
    &&& -(SCALE_LIMIT as int) <= p.scale.x <= SCALE_LIMIT as int
    &&& -(SCALE_LIMIT as int) <= p.scale.y <= SCALE_LIMIT as int
    &&& -(OFFSET_LIMIT as int) <= p.position.x <= OFFSET_LIMIT as int
    &&& -(OFFSET_LIMIT as int) <= p.position.y <= OFFSET_LIMIT as int
    &&& scalar_in_range(p.rotation as int)
}

/// A pose whose components are small enough to compose into a matrix.
pub open spec fn pose3_in_range(p: Pose3) -> bool {
    &&& -(SCALE_LIMIT as int) <= p.scale.x <= SCALE_LIMIT as int
    &&& -(SCALE_LIMIT as int) <= p.scale.y <= SCALE_LIMIT as int
    &&& -(SCALE_LIMIT as int) <= p.scale.z <= SCALE_LIMIT as int
    &&& -(OFFSET_LIMIT as int) <= p.position.x <= OFFSET_LIMIT as int
    &&& -(OFFSET_LIMIT as int) <= p.position.y <= OFFSET_LIMIT as int
    &&& -(OFFSET_LIMIT as int) <= p.position.z <= OFFSET_LIMIT as int
    &&& scalar_in_range(p.rotation.x as int)
    &&& scalar_in_range(p.rotation.y as int)
    &&& scalar_in_range(p.rotation.z as int)
}

/// The fixed-point dot product of one matrix row with one matrix column.
fn dot3(a1: i64, a2: i64, a3: i64, b1: i64, b2: i64, b3: i64) -> (r: i64)
    requires
        -MAT_LIMIT <= a1 <= MAT_LIMIT, -MAT_LIMIT <= a2 <= MAT_LIMIT,
        -MAT_LIMIT <= a3 <= MAT_LIMIT,
        -MAT_LIMIT <= b1 <= MAT_LIMIT, -MAT_LIMIT <= b2 <= MAT_LIMIT,
        -MAT_LIMIT <= b3 <= MAT_LIMIT,
    ensures
        r as int == spec_fmul(a1 as int, b1 as int) + spec_fmul(a2 as int, b2 as int)
            + spec_fmul(a3 as int, b3 as int),
{
    proof {
        let m = MAT_LIMIT as int;
        lemma_abs_product(a1 as int, b1 as int, m, m);
        lemma_abs_product(a2 as int, b2 as int, m, m);
        lemma_abs_product(a3 as int, b3 as int, m, m);
        lemma_fmul_magnitude(a1 as int, b1 as int, m * m);
        lemma_fmul_magnitude(a2 as int, b2 as int, m * m);
        lemma_fmul_magnitude(a3 as int, b3 as int, m * m);
    }
    fmul(a1, b1) + fmul(a2, b2) + fmul(a3, b3)
}

/// The fixed-point dot product of one matrix row with one matrix column.
fn dot4(a1: i64, a2: i64, a3: i64, a4: i64, b1: i64, b2: i64, b3: i64, b4: i64) -> (r: i64)
    requires
        -MAT_LIMIT <= a1 <= MAT_LIMIT, -MAT_LIMIT <= a2 <= MAT_LIMIT,
        -MAT_LIMIT <= a3 <= MAT_LIMIT, -MAT_LIMIT <= a4 <= MAT_LIMIT,
        -MAT_LIMIT <= b1 <= MAT_LIMIT, -MAT_LIMIT <= b2 <= MAT_LIMIT,
        -MAT_LIMIT <= b3 <= MAT_LIMIT, -MAT_LIMIT <= b4 <= MAT_LIMIT,
    ensures
        r as int == spec_fmul(a1 as int, b1 as int) + spec_fmul(a2 as int, b2 as int)
            + spec_fmul(a3 as int, b3 as int) + spec_fmul(a4 as int, b4 as int),
{
    proof {
        let m = MAT_LIMIT as int;
        lemma_abs_product(a1 as int, b1 as int, m, m);
        lemma_abs_product(a2 as int, b2 as int, m, m);
        lemma_abs_product(a3 as int, b3 as int, m, m);
        lemma_abs_product(a4 as int, b4 as int, m, m);
        lemma_fmul_magnitude(a1 as int, b1 as int, m * m);
        lemma_fmul_magnitude(a2 as int, b2 as int, m * m);
        lemma_fmul_magnitude(a3 as int, b3 as int, m * m);
        lemma_fmul_magnitude(a4 as int, b4 as int, m * m);
    }
    fmul(a1, b1) + fmul(a2, b2) + fmul(a3, b3) + fmul(a4, b4)
}

impl Mat3 {
    /// The identity transform.
    pub fn identity() -> (r: Mat3)
        ensures
            r == (Mat3 {
                m11: UNIT, m12: 0i64, m13: 0i64,
                m21: 0i64, m22: UNIT, m23: 0i64,
                m31: 0i64, m32: 0i64, m33: UNIT,
            }),
    {
        Mat3 {
            m11: UNIT, m12: 0, m13: 0,
            m21: 0, m22: UNIT, m23: 0,
            m31: 0, m32: 0, m33: UNIT,
        }
    }

    /// The transform scaling by `v.x` along x and `v.y` along y.
    pub fn new_scaling(v: &Vec2) -> (r: Mat3)
        ensures
            r == (Mat3 {
                m11: v.x, m12: 0i64, m13: 0i64,
                m21: 0i64, m22: v.y, m23: 0i64,
                m31: 0i64, m32: 0i64, m33: UNIT,
            }),
    {
        Mat3 {
            m11: v.x, m12: 0, m13: 0,
            m21: 0, m22: v.y, m23: 0,
            m31: 0, m32: 0, m33: UNIT,
        }
    }

    /// The transform translating by `v`.
    pub fn new_translation(v: &Vec2) -> (r: Mat3)
        ensures
            r == (Mat3 {
                m11: UNIT, m12: 0i64, m13: v.x,
                m21: 0i64, m22: UNIT, m23: v.y,
                m31: 0i64, m32: 0i64, m33: UNIT,
            }),
    {
        Mat3 {
            m11: UNIT, m12: 0, m13: v.x,
            m21: 0, m22: UNIT, m23: v.y,
            m31: 0, m32: 0, m33: UNIT,
        }
    }

    /// The rotation whose cosine and sine are `c` and `s`.
    pub fn new_rotation(c: i64, s: i64) -> (r: Mat3)
        requires
            -TRIG_LIMIT <= s <= TRIG_LIMIT,
        ensures
            r.m11 == c, r.m12 == -s, r.m13 == 0,
            r.m21 == s, r.m22 == c, r.m23 == 0,
            r.m31 == 0, r.m32 == 0, r.m33 == UNIT,
    {
        Mat3 {
            m11: c, m12: -s, m13: 0,
            m21: s, m22: c, m23: 0,
            m31: 0, m32: 0, m33: UNIT,
        }
    }

    /// The matrix product `self x other`, each entry a fixed-point dot
    /// product of a row with a column.
    pub fn multiply(&self, other: &Mat3) -> (r: Mat3)
        requires
            mat3_in_range(*self, MAT_LIMIT as int),
            mat3_in_range(*other, MAT_LIMIT as int),
        ensures
            r.m11 as int == spec_fmul(self.m11 as int, other.m11 as int)
                + spec_fmul(self.m12 as int, other.m21 as int)
                + spec_fmul(self.m13 as int, other.m31 as int),
            r.m12 as int == spec_fmul(self.m11 as int, other.m12 as int)
                + spec_fmul(self.m12 as int, other.m22 as int)
                + spec_fmul(self.m13 as int, other.m32 as int),
            r.m13 as int == spec_fmul(self.m11 as int, other.m13 as int)
                + spec_fmul(self.m12 as int, other.m23 as int)
                + spec_fmul(self.m13 as int, other.m33 as int),
            r.m21 as int == spec_fmul(self.m21 as int, other.m11 as int)
                + spec_fmul(self.m22 as int, other.m21 as int)
                + spec_fmul(self.m23 as int, other.m31 as int),
            r.m22 as int == spec_fmul(self.m21 as int, other.m12 as int)
                + spec_fmul(self.m22 as int, other.m22 as int)
                + spec_fmul(self.m23 as int, other.m32 as int),
            r.m23 as int == spec_fmul(self.m21 as int, other.m13 as int)
                + spec_fmul(self.m22 as int, other.m23 as int)
                + spec_fmul(self.m23 as int, other.m33 as int),
            r.m31 as int == spec_fmul(self.m31 as int, other.m11 as int)
                + spec_fmul(self.m32 as int, other.m21 as int)
                + spec_fmul(self.m33 as int, other.m31 as int),
            r.m32 as int == spec_fmul(self.m31 as int, other.m12 as int)
                + spec_fmul(self.m32 as int, other.m22 as int)
                + spec_fmul(self.m33 as int, other.m32 as int),
            r.m33 as int == spec_fmul(self.m31 as int, other.m13 as int)
                + spec_fmul(self.m32 as int, other.m23 as int)
                + spec_fmul(self.m33 as int, other.m33 as int),
    {
        Mat3 {
            m11: dot3(self.m11, self.m12, self.m13, other.m11, other.m21, other.m31),
            m12: dot3(self.m11, self.m12, self.m13, other.m12, other.m22, other.m32),
            m13: dot3(self.m11, self.m12, self.m13, other.m13, other.m23, other.m33),
            m21: dot3(self.m21, self.m22, self.m23, other.m11, other.m21, other.m31),
            m22: dot3(self.m21, self.m22, self.m23, other.m12, other.m22, other.m32),
            m23: dot3(self.m21, self.m22, self.m23, other.m13, other.m23, other.m33),
            m31: dot3(self.m31, self.m32, self.m33, other.m11, other.m21, other.m31),
            m32: dot3(self.m31, self.m32, self.m33, other.m12, other.m22, other.m32),
            m33: dot3(self.m31, self.m32, self.m33, other.m13, other.m23, other.m33),
        }
    }

    /// The transform of a pose: the product
    /// `Scale x Translation x Rotation` in the declared fixed order, with
    /// `c` and `s` the cosine and sine of the pose's rotation angle.
    pub fn from_pose2(pose: &Pose2, c: i64, s: i64) -> (r: Mat3)
        requires
            pose2_in_range(*pose),
            -TRIG_LIMIT <= c <= TRIG_LIMIT,
            -TRIG_LIMIT <= s <= TRIG_LIMIT,
        ensures
            r.m11 as int == spec_fmul(pose.scale.x as int, c as int),
            r.m12 as int == -spec_fmul(pose.scale.x as int, s as int),
            r.m13 as int == spec_fmul(pose.scale.x as int, pose.position.x as int),
            r.m21 as int == spec_fmul(pose.scale.y as int, s as int),
            r.m22 as int == spec_fmul(pose.scale.y as int, c as int),
            r.m23 as int == spec_fmul(pose.scale.y as int, pose.position.y as int),
            r.m31 == 0, r.m32 == 0, r.m33 == UNIT,
    {
        proof {
            lemma_fmul_basics();
            lemma_abs_product(pose.scale.x as int, pose.position.x as int,
                SCALE_LIMIT as int, OFFSET_LIMIT as int);
            lemma_abs_product(pose.scale.y as int, pose.position.y as int,
                SCALE_LIMIT as int, OFFSET_LIMIT as int);
            lemma_fmul_magnitude(pose.scale.x as int, pose.position.x as int,
                (SCALE_LIMIT as int) * (OFFSET_LIMIT as int));
            lemma_fmul_magnitude(pose.scale.y as int, pose.position.y as int,
                (SCALE_LIMIT as int) * (OFFSET_LIMIT as int));
        }
        let scale = Mat3::new_scaling(&pose.scale);
        let translation = Mat3::new_translation(&pose.position);
        let rotation = Mat3::new_rotation(c, s);
        scale.multiply(&translation).multiply(&rotation)
    }
}

impl Mat4 {
    /// The identity transform.
    pub fn identity() -> (r: Mat4)
        ensures
            r == (Mat4 {
                m11: UNIT, m12: 0i64, m13: 0i64, m14: 0i64,
                m21: 0i64, m22: UNIT, m23: 0i64, m24: 0i64,
                m31: 0i64, m32: 0i64, m33: UNIT, m34: 0i64,
                m41: 0i64, m42: 0i64, m43: 0i64, m44: UNIT,
            }),
    {
        Mat4 {
            m11: UNIT, m12: 0, m13: 0, m14: 0,
            m21: 0, m22: UNIT, m23: 0, m24: 0,
            m31: 0, m32: 0, m33: UNIT, m34: 0,
            m41: 0, m42: 0, m43: 0, m44: UNIT,
        }
    }

    /// The transform scaling each axis by the matching component of `v`.
    pub fn new_scaling(v: &Vector) -> (r: Mat4)
        ensures
            r == (Mat4 {
                m11: v.x, m12: 0i64, m13: 0i64, m14: 0i64,
                m21: 0i64, m22: v.y, m23: 0i64, m24: 0i64,
                m31: 0i64, m32: 0i64, m33: v.z, m34: 0i64,
                m41: 0i64, m42: 0i64, m43: 0i64, m44: UNIT,
            }),
    {
        Mat4 {
            m11: v.x, m12: 0, m13: 0, m14: 0,
            m21: 0, m22: v.y, m23: 0, m24: 0,
            m31: 0, m32: 0, m33: v.z, m34: 0,
            m41: 0, m42: 0, m43: 0, m44: UNIT,
        }
    }

    /// The transform translating by `v`.
    pub fn new_translation(v: &Vector) -> (r: Mat4)
        ensures
            r == (Mat4 {
                m11: UNIT, m12: 0i64, m13: 0i64, m14: v.x,
                m21: 0i64, m22: UNIT, m23: 0i64, m24: v.y,
                m31: 0i64, m32: 0i64, m33: UNIT, m34: v.z,
                m41: 0i64, m42: 0i64, m43: 0i64, m44: UNIT,
            }),
    {
        Mat4 {
            m11: UNIT, m12: 0, m13: 0, m14: v.x,
            m21: 0, m22: UNIT, m23: 0, m24: v.y,
            m31: 0, m32: 0, m33: UNIT, m34: v.z,
            m41: 0, m42: 0, m43: 0, m44: UNIT,
        }
    }

    /// The rotation about the x axis whose cosine and sine are `c` and `s`.
    pub fn rotation_x(c: i64, s: i64) -> (r: Mat4)
        requires
            -TRIG_LIMIT <= s <= TRIG_LIMIT,
        ensures
            r.m11 == UNIT, r.m12 == 0, r.m13 == 0, r.m14 == 0,
            r.m21 == 0, r.m22 == c, r.m23 == -s, r.m24 == 0,
            r.m31 == 0, r.m32 == s, r.m33 == c, r.m34 == 0,
            r.m41 == 0, r.m42 == 0, r.m43 == 0, r.m44 == UNIT,
    {
        Mat4 {
            m11: UNIT, m12: 0, m13: 0, m14: 0,
            m21: 0, m22: c, m23: -s, m24: 0,
            m31: 0, m32: s, m33: c, m34: 0,
            m41: 0, m42: 0, m43: 0, m44: UNIT,
        }
    }

    /// The rotation about the y axis whose cosine and sine are `c` and `s`.
    pub fn rotation_y(c: i64, s: i64) -> (r: Mat4)
        requires
            -TRIG_LIMIT <= s <= TRIG_LIMIT,
        ensures
            r.m11 == c, r.m12 == 0, r.m13 == s, r.m14 == 0,
            r.m21 == 0, r.m22 == UNIT, r.m23 == 0, r.m24 == 0,
            r.m31 == -s, r.m32 == 0, r.m33 == c, r.m34 == 0,
            r.m41 == 0, r.m42 == 0, r.m43 == 0, r.m44 == UNIT,
    {
        Mat4 {
            m11: c, m12: 0, m13: s, m14: 0,
            m21: 0, m22: UNIT, m23: 0, m24: 0,
            m31: -s, m32: 0, m33: c, m34: 0,
            m41: 0, m42: 0, m43: 0, m44: UNIT,
        }
    }

    /// The rotation about the z axis whose cosine and sine are `c` and `s`.
    pub fn rotation_z(c: i64, s: i64) -> (r: Mat4)
        requires
            -TRIG_LIMIT <= s <= TRIG_LIMIT,
        ensures
            r.m11 == c, r.m12 == -s, r.m13 == 0, r.m14 == 0,
            r.m21 == s, r.m22 == c, r.m23 == 0, r.m24 == 0,
            r.m31 == 0, r.m32 == 0, r.m33 == UNIT, r.m34 == 0,
            r.m41 == 0, r.m42 == 0, r.m43 == 0, r.m44 == UNIT,
    {
        Mat4 {
            m11: c, m12: -s, m13: 0, m14: 0,
            m21: s, m22: c, m23: 0, m24: 0,
            m31: 0, m32: 0, m33: UNIT, m34: 0,
            m41: 0, m42: 0, m43: 0, m44: UNIT,
        }
    }

    /// The matrix product `self x other`, each entry a fixed-point dot
    /// product of a row with a column.
    #[verifier::spinoff_prover]
    #[verifier::rlimit(60)]
    pub fn multiply(&self, other: &Mat4) -> (r: Mat4)
        requires
            mat4_in_range(*self, MAT_LIMIT as int),
            mat4_in_range(*other, MAT_LIMIT as int),
        ensures
            r.m11 as int == spec_fmul(self.m11 as int, other.m11 as int)
                + spec_fmul(self.m12 as int, other.m21 as int)
                + spec_fmul(self.m13 as int, other.m31 as int)
                + spec_fmul(self.m14 as int, other.m41 as int),
            r.m12 as int == spec_fmul(self.m11 as int, other.m12 as int)
                + spec_fmul(self.m12 as int, other.m22 as int)
                + spec_fmul(self.m13 as int, other.m32 as int)
                + spec_fmul(self.m14 as int, other.m42 as int),
            r.m13 as int == spec_fmul(self.m11 as int, other.m13 as int)
                + spec_fmul(self.m12 as int, other.m23 as int)
                + spec_fmul(self.m13 as int, other.m33 as int)
                + spec_fmul(self.m14 as int, other.m43 as int),
            r.m14 as int == spec_fmul(self.m11 as int, other.m14 as int)
                + spec_fmul(self.m12 as int, other.m24 as int)
                + spec_fmul(self.m13 as int, other.m34 as int)
                + spec_fmul(self.m14 as int, other.m44 as int),
            r.m21 as int == spec_fmul(self.m21 as int, other.m11 as int)
                + spec_fmul(self.m22 as int, other.m21 as int)
                + spec_fmul(self.m23 as int, other.m31 as int)
                + spec_fmul(self.m24 as int, other.m41 as int),
            r.m22 as int == spec_fmul(self.m21 as int, other.m12 as int)
                + spec_fmul(self.m22 as int, other.m22 as int)
                + spec_fmul(self.m23 as int, other.m32 as int)
                + spec_fmul(self.m24 as int, other.m42 as int),
            r.m23 as int == spec_fmul(self.m21 as int, other.m13 as int)
                + spec_fmul(self.m22 as int, other.m23 as int)
                + spec_fmul(self.m23 as int, other.m33 as int)
                + spec_fmul(self.m24 as int, other.m43 as int),
            r.m24 as int == spec_fmul(self.m21 as int, other.m14 as int)
                + spec_fmul(self.m22 as int, other.m24 as int)
                + spec_fmul(self.m23 as int, other.m34 as int)
                + spec_fmul(self.m24 as int, other.m44 as int),
            r.m31 as int == spec_fmul(self.m31 as int, other.m11 as int)
                + spec_fmul(self.m32 as int, other.m21 as int)
                + spec_fmul(self.m33 as int, other.m31 as int)
                + spec_fmul(self.m34 as int, other.m41 as int),
            r.m32 as int == spec_fmul(self.m31 as int, other.m12 as int)
                + spec_fmul(self.m32 as int, other.m22 as int)
                + spec_fmul(self.m33 as int, other.m32 as int)
                + spec_fmul(self.m34 as int, other.m42 as int),
            r.m33 as int == spec_fmul(self.m31 as int, other.m13 as int)
                + spec_fmul(self.m32 as int, other.m23 as int)
                + spec_fmul(self.m33 as int, other.m33 as int)
                + spec_fmul(self.m34 as int, other.m43 as int),
            r.m34 as int == spec_fmul(self.m31 as int, other.m14 as int)
                + spec_fmul(self.m32 as int, other.m24 as int)
                + spec_fmul(self.m33 as int, other.m34 as int)
                + spec_fmul(self.m34 as int, other.m44 as int),
            r.m41 as int == spec_fmul(self.m41 as int, other.m11 as int)
                + spec_fmul(self.m42 as int, other.m21 as int)
                + spec_fmul(self.m43 as int, other.m31 as int)
                + spec_fmul(self.m44 as int, other.m41 as int),
            r.m42 as int == spec_fmul(self.m41 as int, other.m12 as int)
                + spec_fmul(self.m42 as int, other.m22 as int)
                + spec_fmul(self.m43 as int, other.m32 as int)
                + spec_fmul(self.m44 as int, other.m42 as int),
            r.m43 as int == spec_fmul(self.m41 as int, other.m13 as int)
                + spec_fmul(self.m42 as int, other.m23 as int)
                + spec_fmul(self.m43 as int, other.m33 as int)
                + spec_fmul(self.m44 as int, other.m43 as int),
            r.m44 as int == spec_fmul(self.m41 as int, other.m14 as int)
                + spec_fmul(self.m42 as int, other.m24 as int)
                + spec_fmul(self.m43 as int, other.m34 as int)
                + spec_fmul(self.m44 as int, other.m44 as int),
    {
        Mat4 {
            m11: dot4(self.m11, self.m12, self.m13, self.m14,
                other.m11, other.m21, other.m31, other.m41),
            m12: dot4(self.m11, self.m12, self.m13, self.m14,
                other.m12, other.m22, other.m32, other.m42),
            m13: dot4(self.m11, self.m12, self.m13, self.m14,
                other.m13, other.m23, other.m33, other.m43),
            m14: dot4(self.m11, self.m12, self.m13, self.m14,
                other.m14, other.m24, other.m34, other.m44),
            m21: dot4(self.m21, self.m22, self.m23, self.m24,
                other.m11, other.m21, other.m31, other.m41),
            m22: dot4(self.m21, self.m22, self.m23, self.m24,
                other.m12, other.m22, other.m32, other.m42),
            m23: dot4(self.m21, self.m22, self.m23, self.m24,
                other.m13, other.m23, other.m33, other.m43),
            m24: dot4(self.m21, self.m22, self.m23, self.m24,
                other.m14, other.m24, other.m34, other.m44),
            m31: dot4(self.m31, self.m32, self.m33, self.m34,
                other.m11, other.m21, other.m31, other.m41),
            m32: dot4(self.m31, self.m32, self.m33, self.m34,
                other.m12, other.m22, other.m32, other.m42),
            m33: dot4(self.m31, self.m32, self.m33, self.m34,
                other.m13, other.m23, other.m33, other.m43),
            m34: dot4(self.m31, self.m32, self.m33, self.m34,
                other.m14, other.m24, other.m34, other.m44),
            m41: dot4(self.m41, self.m42, self.m43, self.m44,
                other.m11, other.m21, other.m31, other.m41),
            m42: dot4(self.m41, self.m42, self.m43, self.m44,
                other.m12, other.m22, other.m32, other.m42),
            m43: dot4(self.m41, self.m42, self.m43, self.m44,
                other.m13, other.m23, other.m33, other.m43),
            m44: dot4(self.m41, self.m42, self.m43, self.m44,
                other.m14, other.m24, other.m34, other.m44),
        }
    }

    /// The transform of a pose: the product
    /// `Scale x Translation x Rotation` in the declared fixed order.
    /// The rotation factor is passed ready-made (built from
    /// [`Mat4::rotation_x`], [`Mat4::rotation_y`] and [`Mat4::rotation_z`]
    /// with the trigonometric values of the pose's angles), and must be an
    /// affine rotation block: zero translation and projection parts.
    pub fn from_pose3(pose: &Pose3, rotation: &Mat4) -> (r: Mat4)
        requires
            pose3_in_range(*pose),
            mat4_in_range(*rotation, 8 * (UNIT as int)),
        ensures
            r.m11 as int == spec_fmul(pose.scale.x as int, rotation.m11 as int),
            r.m12 as int == spec_fmul(pose.scale.x as int, rotation.m12 as int),
            r.m13 as int == spec_fmul(pose.scale.x as int, rotation.m13 as int),
            r.m14 as int == spec_fmul(pose.scale.x as int, pose.position.x as int),
            r.m21 as int == spec_fmul(pose.scale.y as int, rotation.m21 as int),
            r.m22 as int == spec_fmul(pose.scale.y as int, rotation.m22 as int),
            r.m23 as int == spec_fmul(pose.scale.y as int, rotation.m23 as int),
            r.m24 as int == spec_fmul(pose.scale.y as int, pose.position.y as int),
            r.m31 as int == spec_fmul(pose.scale.z as int, rotation.m31 as int),
            r.m32 as int == spec_fmul(pose.scale.z as int, rotation.m32 as int),
            r.m33 as int == spec_fmul(pose.scale.z as int, rotation.m33 as int),
            r.m34 as int == spec_fmul(pose.scale.z as int, pose.position.z as int),
            r.m41 == 0, r.m42 == 0, r.m43 == 0, r.m44 == UNIT,
    {
        Mat4 {
            m11: pose_entry(pose.scale.x, rotation.m11),
            m12: pose_entry(pose.scale.x, rotation.m12),
            m13: pose_entry(pose.scale.x, rotation.m13),
            m14: pose_entry(pose.scale.x, pose.position.x),
            m21: pose_entry(pose.scale.y, rotation.m21),
            m22: pose_entry(pose.scale.y, rotation.m22),
            m23: pose_entry(pose.scale.y, rotation.m23),
            m24: pose_entry(pose.scale.y, pose.position.y),
            m31: pose_entry(pose.scale.z, rotation.m31),
            m32: pose_entry(pose.scale.z, rotation.m32),
            m33: pose_entry(pose.scale.z, rotation.m33),
            m34: pose_entry(pose.scale.z, pose.position.z),
            m41: 0, m42: 0, m43: 0, m44: UNIT,
        }
    }
}

/// One entry of a composed pose matrix: a scale component weighted into a
/// rotation entry or a position component.
fn pose_entry(s: i64, e: i64) -> (r: i64)
    requires
        -SCALE_LIMIT <= s <= SCALE_LIMIT,
        -OFFSET_LIMIT <= e <= OFFSET_LIMIT,
    ensures
        r as int == spec_fmul(s as int, e as int),
{
    proof {
        lemma_abs_product(s as int, e as int, SCALE_LIMIT as int, OFFSET_LIMIT as int);
    }
    fmul(s, e)
}

} // verus!
