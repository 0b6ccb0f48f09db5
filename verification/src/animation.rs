//! Easing kinds and the animation values the engine consumes.
//!
//! An easing kind maps a normalized time parameter `t` in `[0, UNIT]` to an
//! eased weight in the same range; the weight then drives the interpolation
//! of entity poses.

use vstd::prelude::*;

verus! {

use crate::fixed::{UNIT, spec_fmul, scale_down, spec_lerp, scalar_in_range};
use crate::fixed::{fmul, lerp, lemma_fmul_unit_range, lemma_scale_down_bounds, lemma_scale_down_exact, lemma_unit_product_small};
use crate::math::{Vector, Vec2, vector_in_range, vec2_in_range};
use crate::transform::{Pose2, Pose3, PerspectiveParams, OrthographicParams};

/// The easing kinds the engine offers.
#[derive(Clone, Copy, PartialEq, Eq, Structural, Debug)]
pub enum Interpolation {
    Linear,
    EaseIn,
    EaseOut,
    EaseInOut,
}

impl Interpolation {
    /// The eased weight for the time parameter `t`, as a mathematical value.
    pub open spec fn spec_apply(self, t: int) -> int {
        let u = UNIT as int;
        match self {
            Interpolation::Linear => t,
            Interpolation::EaseIn => spec_fmul(spec_fmul(t, t), t),
            Interpolation::EaseOut => u - spec_fmul(spec_fmul(u - t, u - t), u - t),
            Interpolation::EaseInOut => if t < u / 2 {
                4 * spec_fmul(spec_fmul(t, t), t)
            } else {
                u - spec_fmul(spec_fmul(2 * (u - t), 2 * (u - t)), 2 * (u - t)) / 2
            },
        }
    }

    /// Applies the easing curve to a normalized time parameter.
    ///
    /// `Linear` is the identity; the eased weight always stays in
    /// `[0, UNIT]` and meets the ends of the range exactly.
    pub fn apply(&self, t: i64) -> (r: i64)
        requires
            0 <= t <= UNIT,
        ensures
            r as int == self.spec_apply(t as int),
            0 <= r <= UNIT,
            self is Linear ==> r == t,
            t == 0 ==> r == 0,
            t == UNIT ==> r == UNIT,
    {
        proof {
            lemma_apply_range(*self, t as int);
            lemma_apply_boundaries(*self);
        }
        match self {
            Interpolation::Linear => t,
            Interpolation::EaseIn => {
                proof { lemma_unit_product_small(t as int, t as int); }
                let tt = fmul(t, t);
                proof {
                    lemma_fmul_unit_range(t as int, t as int);
                    lemma_unit_product_small(tt as int, t as int);
                }
                fmul(tt, t)
            },
            Interpolation::EaseOut => {
                let s = UNIT - t;
                proof { lemma_unit_product_small(s as int, s as int); }
                let ss = fmul(s, s);
                proof {
                    lemma_fmul_unit_range(s as int, s as int);
                    lemma_unit_product_small(ss as int, s as int);
                }
                UNIT - fmul(ss, s)
            },
            Interpolation::EaseInOut => {
                if t < UNIT / 2 {
                    proof { lemma_unit_product_small(t as int, t as int); }
                    let tt = fmul(t, t);
                    proof {
                        lemma_fmul_unit_range(t as int, t as int);
                        lemma_unit_product_small(tt as int, t as int);
                    }
                    4 * fmul(tt, t)
                } else {
                    let s = 2 * (UNIT - t);
                    proof { lemma_unit_product_small(s as int, s as int); }
                    let ss = fmul(s, s);
                    proof {
                        lemma_fmul_unit_range(s as int, s as int);
                        lemma_unit_product_small(ss as int, s as int);
                    }
                    UNIT - fmul(ss, s) / 2
                }
            },
        }
    }
}

impl Interpolation {
    /// The pose of a 2D entity part way through an animation: every
    /// component is interpolated from its initial to its final value by the
    /// eased weight of `t`.  At `t == 0` the pose is exactly the initial
    /// one, at `t == UNIT` exactly the final one.
    pub fn transform2d(
        &self,
        t: i64,
        initial_scale: &Vec2,
        initial_pos: &Vec2,
        initial_rot: i64,
        final_scale: &Vec2,
        final_pos: &Vec2,
        final_rot: i64,
    ) -> (r: Pose2)
        requires
            0 <= t <= UNIT,
            vec2_in_range(*initial_scale), vec2_in_range(*final_scale),
            vec2_in_range(*initial_pos), vec2_in_range(*final_pos),
            scalar_in_range(initial_rot as int), scalar_in_range(final_rot as int),
        ensures
            r.scale.x as int == spec_lerp(initial_scale.x as int, final_scale.x as int, self.spec_apply(t as int)),
            r.scale.y as int == spec_lerp(initial_scale.y as int, final_scale.y as int, self.spec_apply(t as int)),
            r.position.x as int == spec_lerp(initial_pos.x as int, final_pos.x as int, self.spec_apply(t as int)),
            r.position.y as int == spec_lerp(initial_pos.y as int, final_pos.y as int, self.spec_apply(t as int)),
            r.rotation as int == spec_lerp(initial_rot as int, final_rot as int, self.spec_apply(t as int)),
            t == 0 ==> r == (Pose2 { scale: *initial_scale, position: *initial_pos, rotation: initial_rot }),
            t == UNIT ==> r == (Pose2 { scale: *final_scale, position: *final_pos, rotation: final_rot }),
    {
        let ease = self.apply(t);
        Pose2 {
            scale: initial_scale.lerp(final_scale, ease),
            position: initial_pos.lerp(final_pos, ease),
            rotation: lerp(initial_rot, final_rot, ease),
        }
    }

    /// The pose of a 3D entity part way through an animation, interpolated
    /// componentwise by the eased weight of `t`; exact at both ends.
    pub fn transform3d(
        &self,
        t: i64,
        initial_scale: &Vector,
        initial_pos: &Vector,
        initial_rot: &Vector,
        final_scale: &Vector,
        final_pos: &Vector,
        final_rot: &Vector,
    ) -> (r: Pose3)
        requires
            0 <= t <= UNIT,
            vector_in_range(*initial_scale), vector_in_range(*final_scale),
            vector_in_range(*initial_pos), vector_in_range(*final_pos),
            vector_in_range(*initial_rot), vector_in_range(*final_rot),
        ensures
            r.scale.x as int == spec_lerp(initial_scale.x as int, final_scale.x as int, self.spec_apply(t as int)),
            r.scale.y as int == spec_lerp(initial_scale.y as int, final_scale.y as int, self.spec_apply(t as int)),
            r.scale.z as int == spec_lerp(initial_scale.z as int, final_scale.z as int, self.spec_apply(t as int)),
            r.position.x as int == spec_lerp(initial_pos.x as int, final_pos.x as int, self.spec_apply(t as int)),
            r.position.y as int == spec_lerp(initial_pos.y as int, final_pos.y as int, self.spec_apply(t as int)),
            r.position.z as int == spec_lerp(initial_pos.z as int, final_pos.z as int, self.spec_apply(t as int)),
            r.rotation.x as int == spec_lerp(initial_rot.x as int, final_rot.x as int, self.spec_apply(t as int)),
            r.rotation.y as int == spec_lerp(initial_rot.y as int, final_rot.y as int, self.spec_apply(t as int)),
            r.rotation.z as int == spec_lerp(initial_rot.z as int, final_rot.z as int, self.spec_apply(t as int)),
            t == 0 ==> r == (Pose3 { scale: *initial_scale, position: *initial_pos, rotation: *initial_rot }),
            t == UNIT ==> r == (Pose3 { scale: *final_scale, position: *final_pos, rotation: *final_rot }),
    {
        let ease = self.apply(t);
        Pose3 {
            scale: initial_scale.lerp(final_scale, ease),
            position: initial_pos.lerp(final_pos, ease),
            rotation: initial_rot.lerp(final_rot, ease),
        }
    }

    /// The view pose of a 2D camera part way through an animation: the eye
    /// position and the rotation angle are interpolated and then negated,
    /// since a view transform maps world to camera rather than camera to
    /// world; the scale interpolates plainly.
    pub fn camera_transform2d(
        &self,
        t: i64,
        initial_scale: &Vec2,
        initial_eye: &Vec2,
        initial_rot: i64,
        final_scale: &Vec2,
        final_eye: &Vec2,
        final_rot: i64,
    ) -> (r: Pose2)
        requires
            0 <= t <= UNIT,
            vec2_in_range(*initial_scale), vec2_in_range(*final_scale),
            vec2_in_range(*initial_eye), vec2_in_range(*final_eye),
            scalar_in_range(initial_rot as int), scalar_in_range(final_rot as int),
        ensures
            r.scale.x as int == spec_lerp(initial_scale.x as int, final_scale.x as int, self.spec_apply(t as int)),
            r.scale.y as int == spec_lerp(initial_scale.y as int, final_scale.y as int, self.spec_apply(t as int)),
            r.position.x as int == -spec_lerp(initial_eye.x as int, final_eye.x as int, self.spec_apply(t as int)),
            r.position.y as int == -spec_lerp(initial_eye.y as int, final_eye.y as int, self.spec_apply(t as int)),
            r.rotation as int == -spec_lerp(initial_rot as int, final_rot as int, self.spec_apply(t as int)),
    {
        let ease = self.apply(t);
        let eye = initial_eye.lerp(final_eye, ease);
        Pose2 {
            scale: initial_scale.lerp(final_scale, ease),
            position: Vec2 { x: -eye.x, y: -eye.y },
            rotation: -lerp(initial_rot, final_rot, ease),
        }
    }

    /// The view pose of a 3D camera part way through an animation: the eye
    /// position and the rotation angles are interpolated and then negated;
    /// the scale interpolates plainly.
    pub fn camera_transform3d(
        &self,
        t: i64,
        initial_scale: &Vector,
        initial_eye: &Vector,
        initial_rot: &Vector,
        final_scale: &Vector,
        final_eye: &Vector,
        final_rot: &Vector,
    ) -> (r: Pose3)
        requires
            0 <= t <= UNIT,
            vector_in_range(*initial_scale), vector_in_range(*final_scale),
            vector_in_range(*initial_eye), vector_in_range(*final_eye),
            vector_in_range(*initial_rot), vector_in_range(*final_rot),
        ensures
            r.scale.x as int == spec_lerp(initial_scale.x as int, final_scale.x as int, self.spec_apply(t as int)),
            r.scale.y as int == spec_lerp(initial_scale.y as int, final_scale.y as int, self.spec_apply(t as int)),
            r.scale.z as int == spec_lerp(initial_scale.z as int, final_scale.z as int, self.spec_apply(t as int)),
            r.position.x as int == -spec_lerp(initial_eye.x as int, final_eye.x as int, self.spec_apply(t as int)),
            r.position.y as int == -spec_lerp(initial_eye.y as int, final_eye.y as int, self.spec_apply(t as int)),
            r.position.z as int == -spec_lerp(initial_eye.z as int, final_eye.z as int, self.spec_apply(t as int)),
            r.rotation.x as int == -spec_lerp(initial_rot.x as int, final_rot.x as int, self.spec_apply(t as int)),
            r.rotation.y as int == -spec_lerp(initial_rot.y as int, final_rot.y as int, self.spec_apply(t as int)),
            r.rotation.z as int == -spec_lerp(initial_rot.z as int, final_rot.z as int, self.spec_apply(t as int)),
    {
        let ease = self.apply(t);
        let eye = initial_eye.lerp(final_eye, ease);
        let rot = initial_rot.lerp(final_rot, ease);
        Pose3 {
            scale: initial_scale.lerp(final_scale, ease),
            position: Vector { x: -eye.x, y: -eye.y, z: -eye.z },
            rotation: Vector { x: -rot.x, y: -rot.y, z: -rot.z },
        }
    }

    /// The perspective projection parameters part way through an animation:
    /// field of view and the near and far planes blend linearly under the
    /// eased weight, and the aspect ratio passes through unchanged.
    pub fn perspective(
        &self,
        t: i64,
        aspect_ratio: i64,
        initial_fov: i64,
        initial_near: i64,
        initial_far: i64,
        final_fov: i64,
        final_near: i64,
        final_far: i64,
    ) -> (r: PerspectiveParams)
        requires
            0 <= t <= UNIT,
            scalar_in_range(initial_fov as int), scalar_in_range(final_fov as int),
            scalar_in_range(initial_near as int), scalar_in_range(final_near as int),
            scalar_in_range(initial_far as int), scalar_in_range(final_far as int),
        ensures
            r.aspect == aspect_ratio,
            r.fov as int == spec_lerp(initial_fov as int, final_fov as int, self.spec_apply(t as int)),
            r.near as int == spec_lerp(initial_near as int, final_near as int, self.spec_apply(t as int)),
            r.far as int == spec_lerp(initial_far as int, final_far as int, self.spec_apply(t as int)),
    {
        let ease = self.apply(t);
        PerspectiveParams {
            aspect: aspect_ratio,
            fov: lerp(initial_fov, final_fov, ease),
            near: lerp(initial_near, final_near, ease),
            far: lerp(initial_far, final_far, ease),
        }
    }

    /// The orthographic projection parameters part way through an
    /// animation: all six bounds blend linearly under the eased weight.
    pub fn orthographic(
        &self,
        t: i64,
        initial_left: i64, initial_right: i64,
        initial_bottom: i64, initial_top: i64,
        initial_near: i64, initial_far: i64,
        final_left: i64, final_right: i64,
        final_bottom: i64, final_top: i64,
        final_near: i64, final_far: i64,
    ) -> (r: OrthographicParams)
        requires
            0 <= t <= UNIT,
            scalar_in_range(initial_left as int), scalar_in_range(final_left as int),
            scalar_in_range(initial_right as int), scalar_in_range(final_right as int),
            scalar_in_range(initial_bottom as int), scalar_in_range(final_bottom as int),
            scalar_in_range(initial_top as int), scalar_in_range(final_top as int),
            scalar_in_range(initial_near as int), scalar_in_range(final_near as int),
            scalar_in_range(initial_far as int), scalar_in_range(final_far as int),
        ensures
            r.left as int == spec_lerp(initial_left as int, final_left as int, self.spec_apply(t as int)),
            r.right as int == spec_lerp(initial_right as int, final_right as int, self.spec_apply(t as int)),
            r.bottom as int == spec_lerp(initial_bottom as int, final_bottom as int, self.spec_apply(t as int)),
            r.top as int == spec_lerp(initial_top as int, final_top as int, self.spec_apply(t as int)),
            r.near as int == spec_lerp(initial_near as int, final_near as int, self.spec_apply(t as int)),
            r.far as int == spec_lerp(initial_far as int, final_far as int, self.spec_apply(t as int)),
    {
        let ease = self.apply(t);
        OrthographicParams {
            left: lerp(initial_left, final_left, ease),
            right: lerp(initial_right, final_right, ease),
            bottom: lerp(initial_bottom, final_bottom, ease),
            top: lerp(initial_top, final_top, ease),
            near: lerp(initial_near, final_near, ease),
            far: lerp(initial_far, final_far, ease),
        }
    }
}

/// One per-entity target a single animation drives, tagged by the kind of
/// entity it addresses.  Optional 2D components leave the matching rest
/// component unchanged when the animation commits.
#[derive(Clone, Copy, Debug)]
pub enum AnimationUpdate {
    /// A mesh: target scale, position and rotation.
    Transform3D(i32, Vector, Vector, Vector),
    /// A 2D path: target scale, position and rotation angle.
    PathTransform2D(i32, Option<Vec2>, Option<Vec2>, Option<i64>),
    /// A 2D ellipse: target scale, position and rotation angle.
    EllipseTransform2D(i32, Option<Vec2>, Option<Vec2>, Option<i64>),
    /// The 3D camera: target scale, eye position and rotation.
    Camera3DTransform(Vector, Vector, Vector),
    /// The 2D camera: target scale, eye position and rotation angle.
    Camera2DTransform(Vec2, Vec2, i64),
    /// The 3D camera's perspective projection: target field of view, near
    /// plane and far plane.
    Perspective(i64, i64, i64),
}

/// One animation request: how long it runs, what it drives, and which
/// easing curve it follows.  Animations are built per call, consumed by one
/// engine run and then discarded.
#[derive(Clone, Copy, Debug)]
pub struct Animation {
    pub duration: i64,
    pub update: AnimationUpdate,
    pub interpolation: Interpolation,
}

/// Composition at the ends of the schedule is the identity: for every
/// easing kind, interpolating any component from `a` to `b` yields exactly
/// `a` at the start of the schedule and exactly `b` at its end.  Since a
/// pose's matrix is a function of its components alone, the transform at
/// the first step equals the matrix built purely from the initial scale,
/// position and rotation, and at the last step the matrix built purely
/// from the final ones.
pub proof fn lemma_transform_boundary(kind: Interpolation, a: int, b: int)
    ensures
        spec_lerp(a, b, kind.spec_apply(0)) == a,
        spec_lerp(a, b, kind.spec_apply(UNIT as int)) == b,
{
    lemma_apply_boundaries(kind);
    crate::fixed::lemma_lerp_endpoints(a, b);
}

/// Every easing kind keeps the eased weight within `[0, UNIT]`.
pub proof fn lemma_apply_range(kind: Interpolation, t: int)
    requires
        0 <= t <= UNIT as int,
    ensures
        0 <= kind.spec_apply(t) <= UNIT as int,
{
    let u = UNIT as int;
    match kind {
        Interpolation::Linear => {},
        Interpolation::EaseIn => {
            lemma_fmul_unit_range(t, t);
            lemma_fmul_unit_range(spec_fmul(t, t), t);
        },
        Interpolation::EaseOut => {
            lemma_fmul_unit_range(u - t, u - t);
            lemma_fmul_unit_range(spec_fmul(u - t, u - t), u - t);
        },
        Interpolation::EaseInOut => {
            if t < u / 2 {
                lemma_fmul_unit_range(t, t);
                lemma_fmul_unit_range(spec_fmul(t, t), t);
                lemma_cube_small_half(t);
            } else {
                let s = 2 * (u - t);
                lemma_fmul_unit_range(s, s);
                lemma_fmul_unit_range(spec_fmul(s, s), s);
            }
        },
    }
}

/// For `t` below half a unit, the quadrupled cube stays below a unit.
proof fn lemma_cube_small_half(t: int)
    requires
        0 <= t < (UNIT as int) / 2,
    ensures
        4 * spec_fmul(spec_fmul(t, t), t) <= UNIT as int,
{
    let u = UNIT as int;
    lemma_fmul_unit_range(t, t);
    let tt = spec_fmul(t, t);
    // tt <= t < u / 2, so fmul(tt, t) < u / 4 because both factors are below
    // half a unit.
    assert(tt * t <= (u / 2) * (u / 2)) by (nonlinear_arith)
        requires 0 <= tt && tt <= t && 0 <= t && t < u / 2 && u == 65536,
    ;
    assert((u / 2) * (u / 2) == (u / 4) * u) by (nonlinear_arith)
        requires u == 65536,
    ;
    lemma_scale_down_exact(u / 4);
    vstd::arithmetic::div_mod::lemma_div_is_ordered(tt * t, (u / 4) * u, u);
    lemma_scale_down_bounds(tt * t);
}

/// Every easing kind is the identity at both ends of the time range: the
/// eased weight of `0` is `0` and the eased weight of a whole unit is a
/// whole unit.
pub proof fn lemma_apply_boundaries(kind: Interpolation)
    ensures
        kind.spec_apply(0) == 0,
        kind.spec_apply(UNIT as int) == UNIT as int,
{
    let u = UNIT as int;
    assert(spec_fmul(0, 0) == 0);
    assert(u * u == 4294967296) by (nonlinear_arith)
        requires u == 65536,
    ;
    assert(spec_fmul(u, u) == u);
    lemma_scale_down_exact(u);
    match kind {
        Interpolation::Linear => {},
        Interpolation::EaseIn => {
            assert(kind.spec_apply(0) == 0);
            assert(kind.spec_apply(u) == u);
        },
        Interpolation::EaseOut => {
            assert(kind.spec_apply(0) == 0);
            assert(kind.spec_apply(u) == u);
        },
        Interpolation::EaseInOut => {
            assert(kind.spec_apply(0) == 0);
            assert(kind.spec_apply(u) == u);
        },
    }
}

} // verus!
