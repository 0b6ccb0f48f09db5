//! The application context: the scene world and the frame output, and the
//! animation engine that steps them through time.
//!
//! The engine runs one animation at a time to completion: it marks the
//! world as animating, steps the normalized time parameter through a fixed
//! schedule, writes interpolated poses into the targeted entities and plans
//! one output frame per step, then commits the targets into the entities'
//! rest state, advances the world's age by the animation's duration, and
//! clears the flag.

use vstd::prelude::*;

verus! {

use crate::animation::{Animation, AnimationUpdate};
use crate::fixed::{UNIT, scalar_in_range};
use crate::graph::{FramePlan, spec_plan_of};
use crate::math::{Vector, Vec2, vector_in_range, vec2_in_range};
use crate::output::Output;
use crate::transform::{Pose2, Pose3, PerspectiveParams};
use crate::video::video_wf;
use crate::world::{
    World, Object3D, PathConfig, EllipseConfig, Camera3D, Camera2D, CameraProjection,
};
pub use crate::world::world_poses_in_range;

/// Longest duration one call may simulate: an hour.
pub const MAX_DURATION: i64 = 3600 * 65536;

/// Every target of the update lies within the scalar range interpolation
/// accepts.
pub open spec fn update_in_range(u: AnimationUpdate) -> bool {
    match u {
        AnimationUpdate::Transform3D(_, s, p, r) =>
            vector_in_range(s) && vector_in_range(p) && vector_in_range(r),
        AnimationUpdate::PathTransform2D(_, s, p, r) => {
            &&& (s matches Some(v) ==> vec2_in_range(v))
            &&& (p matches Some(v) ==> vec2_in_range(v))
            &&& (r matches Some(a) ==> scalar_in_range(a as int))
        },
        AnimationUpdate::EllipseTransform2D(_, s, p, r) => {
            &&& (s matches Some(v) ==> vec2_in_range(v))
            &&& (p matches Some(v) ==> vec2_in_range(v))
            &&& (r matches Some(a) ==> scalar_in_range(a as int))
        },
        AnimationUpdate::Camera3DTransform(s, p, r) =>
            vector_in_range(s) && vector_in_range(p) && vector_in_range(r),
        AnimationUpdate::Camera2DTransform(s, p, r) =>
            vec2_in_range(s) && vec2_in_range(p) && scalar_in_range(r as int),
        AnimationUpdate::Perspective(f, n, fa) =>
            scalar_in_range(f as int) && scalar_in_range(n as int) && scalar_in_range(fa as int),
    }
}

/// Every animation's targets are within range.
pub open spec fn animations_in_range(animations: Seq<Animation>) -> bool {
    forall|i: int| 0 <= i < animations.len() ==> update_in_range((#[trigger] animations[i]).update)
}

/// The two worlds agree everywhere except possibly in the stepping poses:
/// entity rest state, geometry, cameras' rest state, age and domain all
/// match; only `transform` fields, camera view poses and the projection
/// may differ.
pub open spec fn same_except_transforms(w0: World, w: World) -> bool {
    &&& w.meshes@.len() == w0.meshes@.len()
    &&& forall|i: int| 0 <= i < w.meshes@.len()
        ==> #[trigger] w.meshes@[i] == (Object3D {
            transform: w.meshes@[i].transform,
            ..w0.meshes@[i]
        })
    &&& w.paths@.len() == w0.paths@.len()
    &&& forall|i: int| 0 <= i < w.paths@.len()
        ==> #[trigger] w.paths@[i] == (PathConfig {
            transform: w.paths@[i].transform,
            ..w0.paths@[i]
        })
    &&& w.ellipses@.len() == w0.ellipses@.len()
    &&& forall|i: int| 0 <= i < w.ellipses@.len()
        ==> #[trigger] w.ellipses@[i] == (EllipseConfig {
            transform: w.ellipses@[i].transform,
            ..w0.ellipses@[i]
        })
    &&& w.camera_3d == (Camera3D {
        view: w.camera_3d.view,
        projection: w.camera_3d.projection,
        ..w0.camera_3d
    })
    &&& w.camera_2d == (Camera2D { view: w.camera_2d.view, ..w0.camera_2d })
    &&& w.points == w0.points
    &&& w.controls == w0.controls
    &&& w.domain == w0.domain
    &&& w.lights == w0.lights
    &&& w.age == w0.age
}

/// What a completed animation with this single update leaves behind,
/// relative to the world it started from: the target is written into the
/// entity's rest state and its stepping pose alike, absent components
/// keep their rest value, a stale id changes nothing, and everything else
/// is untouched (age and the animating flag are accounted separately).
pub open spec fn spec_animated(w0: World, w1: World, u: AnimationUpdate) -> bool {
    match u {
        AnimationUpdate::Transform3D(id, s, p, r) => {
            &&& (0 <= id && (id as int) < w0.meshes@.len() ==> w1.meshes@ == w0.meshes@.update(
                id as int,
                Object3D {
                    scale: s, position: p, rotation: r,
                    transform: Pose3 { scale: s, position: p, rotation: r },
                    ..w0.meshes@[id as int]
                }))
            &&& (!(0 <= id && (id as int) < w0.meshes@.len()) ==> w1.meshes@ == w0.meshes@)
            &&& w1.paths@ == w0.paths@ &&& w1.ellipses@ == w0.ellipses@
            &&& w1.camera_3d == w0.camera_3d &&& w1.camera_2d == w0.camera_2d
            &&& w1.points == w0.points &&& w1.controls == w0.controls
            &&& w1.domain == w0.domain &&& w1.lights == w0.lights
        },
        AnimationUpdate::PathTransform2D(id, s, p, r) => {
            &&& (0 <= id && (id as int) < w0.paths@.len() ==> {
                let base = w0.paths@[id as int];
                let ns = if s is Some { s->0 } else { base.scale };
                let np = if p is Some { p->0 } else { base.position };
                let nr = if r is Some { r->0 } else { base.rotation };
                w1.paths@ == w0.paths@.update(id as int, PathConfig {
                    scale: ns, position: np, rotation: nr,
                    transform: Pose2 { scale: ns, position: np, rotation: nr },
                    ..base
                })
            })
            &&& (!(0 <= id && (id as int) < w0.paths@.len()) ==> w1.paths@ == w0.paths@)
            &&& w1.meshes@ == w0.meshes@ &&& w1.ellipses@ == w0.ellipses@
            &&& w1.camera_3d == w0.camera_3d &&& w1.camera_2d == w0.camera_2d
            &&& w1.points == w0.points &&& w1.controls == w0.controls
            &&& w1.domain == w0.domain &&& w1.lights == w0.lights
        },
        AnimationUpdate::EllipseTransform2D(id, s, p, r) => {
            &&& (0 <= id && (id as int) < w0.ellipses@.len() ==> {
                let base = w0.ellipses@[id as int];
                let ns = if s is Some { s->0 } else { base.scale };
                let np = if p is Some { p->0 } else { base.position };
                let nr = if r is Some { r->0 } else { base.rotation };
                w1.ellipses@ == w0.ellipses@.update(id as int, EllipseConfig {
                    scale: ns, position: np, rotation: nr,
                    transform: Pose2 { scale: ns, position: np, rotation: nr },
                    ..base
                })
            })
            &&& (!(0 <= id && (id as int) < w0.ellipses@.len()) ==> w1.ellipses@ == w0.ellipses@)
            &&& w1.meshes@ == w0.meshes@ &&& w1.paths@ == w0.paths@
            &&& w1.camera_3d == w0.camera_3d &&& w1.camera_2d == w0.camera_2d
            &&& w1.points == w0.points &&& w1.controls == w0.controls
            &&& w1.domain == w0.domain &&& w1.lights == w0.lights
        },
        AnimationUpdate::Camera3DTransform(s, p, r) => {
            &&& w1.camera_3d == (Camera3D {
                scale: s, position: p, rotation: r,
                view: Pose3 {
                    scale: s,
                    position: Vector { x: (-p.x) as i64, y: (-p.y) as i64, z: (-p.z) as i64 },
                    rotation: Vector { x: (-r.x) as i64, y: (-r.y) as i64, z: (-r.z) as i64 },
                },
                ..w0.camera_3d
            })
            &&& w1.meshes@ == w0.meshes@ &&& w1.paths@ == w0.paths@
            &&& w1.ellipses@ == w0.ellipses@ &&& w1.camera_2d == w0.camera_2d
            &&& w1.points == w0.points &&& w1.controls == w0.controls
            &&& w1.domain == w0.domain &&& w1.lights == w0.lights
        },
        AnimationUpdate::Camera2DTransform(s, p, r) => {
            &&& w1.camera_2d == (Camera2D {
                scale: s, position: p, rotation: r,
                view: Pose2 {
                    scale: s,
                    position: Vec2 { x: (-p.x) as i64, y: (-p.y) as i64 },
                    rotation: (-r) as i64,
                },
                ..w0.camera_2d
            })
            &&& w1.meshes@ == w0.meshes@ &&& w1.paths@ == w0.paths@
            &&& w1.ellipses@ == w0.ellipses@ &&& w1.camera_3d == w0.camera_3d
            &&& w1.points == w0.points &&& w1.controls == w0.controls
            &&& w1.domain == w0.domain &&& w1.lights == w0.lights
        },
        AnimationUpdate::Perspective(f, n, fa) => {
            &&& (w0.camera_3d.config is Perspective ==> w1.camera_3d == (Camera3D {
                projection: PerspectiveParams {
                    aspect: w0.camera_3d.aspect, fov: f, near: n, far: fa,
                },
                ..w0.camera_3d
            }))
            &&& (!(w0.camera_3d.config is Perspective) ==> w1.camera_3d == w0.camera_3d)
            &&& w1.meshes@ == w0.meshes@ &&& w1.paths@ == w0.paths@
            &&& w1.ellipses@ == w0.ellipses@ &&& w1.camera_2d == w0.camera_2d
            &&& w1.points == w0.points &&& w1.controls == w0.controls
            &&& w1.domain == w0.domain &&& w1.lights == w0.lights
        },
    }
}

/// Only the update's target was touched between the two worlds, and only
/// in its stepping pose: the targeted entity's transform (or the targeted
/// camera's view or projection) may differ, and nothing else does.
pub open spec fn spec_step_touched(w0: World, w1: World, u: AnimationUpdate) -> bool {
    match u {
        AnimationUpdate::Transform3D(id, s, p, r) => {
            &&& (0 <= id && (id as int) < w0.meshes@.len() ==> w1.meshes@ == w0.meshes@.update(
                id as int,
                Object3D { transform: w1.meshes@[id as int].transform, ..w0.meshes@[id as int] }))
            &&& (!(0 <= id && (id as int) < w0.meshes@.len()) ==> w1.meshes@ == w0.meshes@)
            &&& w1.paths@ == w0.paths@ &&& w1.ellipses@ == w0.ellipses@
            &&& w1.camera_3d == w0.camera_3d &&& w1.camera_2d == w0.camera_2d
        },
        AnimationUpdate::PathTransform2D(id, s, p, r) => {
            &&& (0 <= id && (id as int) < w0.paths@.len() ==> w1.paths@ == w0.paths@.update(
                id as int,
                PathConfig { transform: w1.paths@[id as int].transform, ..w0.paths@[id as int] }))
            &&& (!(0 <= id && (id as int) < w0.paths@.len()) ==> w1.paths@ == w0.paths@)
            &&& w1.meshes@ == w0.meshes@ &&& w1.ellipses@ == w0.ellipses@
            &&& w1.camera_3d == w0.camera_3d &&& w1.camera_2d == w0.camera_2d
        },
        AnimationUpdate::EllipseTransform2D(id, s, p, r) => {
            &&& (0 <= id && (id as int) < w0.ellipses@.len() ==> w1.ellipses@ == w0.ellipses@.update(
                id as int,
                EllipseConfig { transform: w1.ellipses@[id as int].transform, ..w0.ellipses@[id as int] }))
            &&& (!(0 <= id && (id as int) < w0.ellipses@.len()) ==> w1.ellipses@ == w0.ellipses@)
            &&& w1.meshes@ == w0.meshes@ &&& w1.paths@ == w0.paths@
            &&& w1.camera_3d == w0.camera_3d &&& w1.camera_2d == w0.camera_2d
        },
        AnimationUpdate::Camera3DTransform(s, p, r) => {
            &&& w1.camera_3d == (Camera3D { view: w1.camera_3d.view, ..w0.camera_3d })
            &&& w1.meshes@ == w0.meshes@ &&& w1.paths@ == w0.paths@
            &&& w1.ellipses@ == w0.ellipses@ &&& w1.camera_2d == w0.camera_2d
        },
        AnimationUpdate::Camera2DTransform(s, p, r) => {
            &&& w1.camera_2d == (Camera2D { view: w1.camera_2d.view, ..w0.camera_2d })
            &&& w1.meshes@ == w0.meshes@ &&& w1.paths@ == w0.paths@
            &&& w1.ellipses@ == w0.ellipses@ &&& w1.camera_3d == w0.camera_3d
        },
        AnimationUpdate::Perspective(f, n, fa) => {
            &&& (w0.camera_3d.config is Perspective
                ==> w1.camera_3d == (Camera3D { projection: w1.camera_3d.projection, ..w0.camera_3d }))
            &&& (!(w0.camera_3d.config is Perspective) ==> w1.camera_3d == w0.camera_3d)
            &&& w1.meshes@ == w0.meshes@ &&& w1.paths@ == w0.paths@
            &&& w1.ellipses@ == w0.ellipses@ &&& w1.camera_2d == w0.camera_2d
        },
    }
}

/// How many frames a duration spans at a frame rate.
pub open spec fn spec_frame_count(duration: int, fps: int) -> int {
    duration * fps / (UNIT as int)
}

/// The normalized time parameter of step `i` in a schedule of `frames`
/// steps: `i / (frames - 1)` in fixed point, exactly zero at the first
/// step and exactly one at the last.
pub open spec fn spec_step_t(i: int, frames: int) -> int {
    i * (UNIT as int) / (frames - 1)
}

/// One step of the update has been written: the targeted entity's (or
/// camera's) stepping pose holds exactly the componentwise interpolation
/// between its rest state and the update's target under the eased weight
/// of `t`, a stale id changes nothing, and everything else is untouched
/// (age and the animating flag are accounted separately).
pub open spec fn spec_step_applied(w0: World, w1: World, a: Animation, t: int) -> bool {
    let e = a.interpolation.spec_apply(t);
    match a.update {
        AnimationUpdate::Transform3D(id, s, p, r) => {
            &&& (0 <= id && (id as int) < w0.meshes@.len() ==> {
                let base = w0.meshes@[id as int];
                w1.meshes@ == w0.meshes@.update(id as int, Object3D {
                    transform: Pose3 {
                        scale: Vector {
                            x: crate::fixed::spec_lerp(base.scale.x as int, s.x as int, e) as i64,
                            y: crate::fixed::spec_lerp(base.scale.y as int, s.y as int, e) as i64,
                            z: crate::fixed::spec_lerp(base.scale.z as int, s.z as int, e) as i64,
                        },
                        position: Vector {
                            x: crate::fixed::spec_lerp(base.position.x as int, p.x as int, e) as i64,
                            y: crate::fixed::spec_lerp(base.position.y as int, p.y as int, e) as i64,
                            z: crate::fixed::spec_lerp(base.position.z as int, p.z as int, e) as i64,
                        },
                        rotation: Vector {
                            x: crate::fixed::spec_lerp(base.rotation.x as int, r.x as int, e) as i64,
                            y: crate::fixed::spec_lerp(base.rotation.y as int, r.y as int, e) as i64,
                            z: crate::fixed::spec_lerp(base.rotation.z as int, r.z as int, e) as i64,
                        },
                    },
                    ..base
                })
            })
            &&& (!(0 <= id && (id as int) < w0.meshes@.len()) ==> w1.meshes@ == w0.meshes@)
            &&& w1.paths@ == w0.paths@ &&& w1.ellipses@ == w0.ellipses@
            &&& w1.camera_3d == w0.camera_3d &&& w1.camera_2d == w0.camera_2d
        },
        AnimationUpdate::PathTransform2D(id, s, p, r) => {
            &&& (0 <= id && (id as int) < w0.paths@.len() ==> {
                let base = w0.paths@[id as int];
                let ts = if s is Some { s->0 } else { base.scale };
                let tp = if p is Some { p->0 } else { base.position };
                let tr = if r is Some { r->0 } else { base.rotation };
                w1.paths@ == w0.paths@.update(id as int, PathConfig {
                    transform: Pose2 {
                        scale: Vec2 {
                            x: crate::fixed::spec_lerp(base.scale.x as int, ts.x as int, e) as i64,
                            y: crate::fixed::spec_lerp(base.scale.y as int, ts.y as int, e) as i64,
                        },
                        position: Vec2 {
                            x: crate::fixed::spec_lerp(base.position.x as int, tp.x as int, e) as i64,
                            y: crate::fixed::spec_lerp(base.position.y as int, tp.y as int, e) as i64,
                        },
                        rotation: crate::fixed::spec_lerp(base.rotation as int, tr as int, e) as i64,
                    },
                    ..base
                })
            })
            &&& (!(0 <= id && (id as int) < w0.paths@.len()) ==> w1.paths@ == w0.paths@)
            &&& w1.meshes@ == w0.meshes@ &&& w1.ellipses@ == w0.ellipses@
            &&& w1.camera_3d == w0.camera_3d &&& w1.camera_2d == w0.camera_2d
        },
        AnimationUpdate::EllipseTransform2D(id, s, p, r) => {
            &&& (0 <= id && (id as int) < w0.ellipses@.len() ==> {
                let base = w0.ellipses@[id as int];
                let ts = if s is Some { s->0 } else { base.scale };
                let tp = if p is Some { p->0 } else { base.position };
                let tr = if r is Some { r->0 } else { base.rotation };
                w1.ellipses@ == w0.ellipses@.update(id as int, EllipseConfig {
                    transform: Pose2 {
                        scale: Vec2 {
                            x: crate::fixed::spec_lerp(base.scale.x as int, ts.x as int, e) as i64,
                            y: crate::fixed::spec_lerp(base.scale.y as int, ts.y as int, e) as i64,
                        },
                        position: Vec2 {
                            x: crate::fixed::spec_lerp(base.position.x as int, tp.x as int, e) as i64,
                            y: crate::fixed::spec_lerp(base.position.y as int, tp.y as int, e) as i64,
                        },
                        rotation: crate::fixed::spec_lerp(base.rotation as int, tr as int, e) as i64,
                    },
                    ..base
                })
            })
            &&& (!(0 <= id && (id as int) < w0.ellipses@.len()) ==> w1.ellipses@ == w0.ellipses@)
            &&& w1.meshes@ == w0.meshes@ &&& w1.paths@ == w0.paths@
            &&& w1.camera_3d == w0.camera_3d &&& w1.camera_2d == w0.camera_2d
        },
        AnimationUpdate::Camera3DTransform(s, p, r) => {
            let c = w0.camera_3d;
            &&& w1.camera_3d == (Camera3D {
                view: Pose3 {
                    scale: Vector {
                        x: crate::fixed::spec_lerp(c.scale.x as int, s.x as int, e) as i64,
                        y: crate::fixed::spec_lerp(c.scale.y as int, s.y as int, e) as i64,
                        z: crate::fixed::spec_lerp(c.scale.z as int, s.z as int, e) as i64,
                    },
                    position: Vector {
                        x: (-crate::fixed::spec_lerp(c.position.x as int, p.x as int, e)) as i64,
                        y: (-crate::fixed::spec_lerp(c.position.y as int, p.y as int, e)) as i64,
                        z: (-crate::fixed::spec_lerp(c.position.z as int, p.z as int, e)) as i64,
                    },
                    rotation: Vector {
                        x: (-crate::fixed::spec_lerp(c.rotation.x as int, r.x as int, e)) as i64,
                        y: (-crate::fixed::spec_lerp(c.rotation.y as int, r.y as int, e)) as i64,
                        z: (-crate::fixed::spec_lerp(c.rotation.z as int, r.z as int, e)) as i64,
                    },
                },
                ..w0.camera_3d
            })
            &&& w1.meshes@ == w0.meshes@ &&& w1.paths@ == w0.paths@
            &&& w1.ellipses@ == w0.ellipses@ &&& w1.camera_2d == w0.camera_2d
        },
        AnimationUpdate::Camera2DTransform(s, p, r) => {
            let c = w0.camera_2d;
            &&& w1.camera_2d == (Camera2D {
                view: Pose2 {
                    scale: Vec2 {
                        x: crate::fixed::spec_lerp(c.scale.x as int, s.x as int, e) as i64,
                        y: crate::fixed::spec_lerp(c.scale.y as int, s.y as int, e) as i64,
                    },
                    position: Vec2 {
                        x: (-crate::fixed::spec_lerp(c.position.x as int, p.x as int, e)) as i64,
                        y: (-crate::fixed::spec_lerp(c.position.y as int, p.y as int, e)) as i64,
                    },
                    rotation: (-crate::fixed::spec_lerp(c.rotation as int, r as int, e)) as i64,
                },
                ..w0.camera_2d
            })
            &&& w1.meshes@ == w0.meshes@ &&& w1.paths@ == w0.paths@
            &&& w1.ellipses@ == w0.ellipses@ &&& w1.camera_3d == w0.camera_3d
        },
        AnimationUpdate::Perspective(f, n, fa) => {
            &&& (w0.camera_3d.config matches CameraProjection::Perspective(f0, n0, fa0)
                ==> w1.camera_3d == (Camera3D {
                    projection: PerspectiveParams {
                        aspect: w0.camera_3d.aspect,
                        fov: crate::fixed::spec_lerp(f0 as int, f as int, e) as i64,
                        near: crate::fixed::spec_lerp(n0 as int, n as int, e) as i64,
                        far: crate::fixed::spec_lerp(fa0 as int, fa as int, e) as i64,
                    },
                    ..w0.camera_3d
                }))
            &&& (!(w0.camera_3d.config is Perspective) ==> w1.camera_3d == w0.camera_3d)
            &&& w1.meshes@ == w0.meshes@ &&& w1.paths@ == w0.paths@
            &&& w1.ellipses@ == w0.ellipses@ &&& w1.camera_2d == w0.camera_2d
        },
    }
}

/// The two worlds agree in everything but age and the animating flag.
pub open spec fn spec_world_still(w0: World, w1: World) -> bool {
    &&& w1.meshes@ == w0.meshes@
    &&& w1.paths@ == w0.paths@
    &&& w1.ellipses@ == w0.ellipses@
    &&& w1.camera_3d == w0.camera_3d
    &&& w1.camera_2d == w0.camera_2d
    &&& w1.points == w0.points
    &&& w1.controls == w0.controls
    &&& w1.domain == w0.domain
    &&& w1.lights == w0.lights
}

/// The updates of a list of animations, in order.
pub open spec fn spec_updates(animations: Seq<Animation>) -> Seq<AnimationUpdate> {
    animations.map_values(|a: Animation| a.update)
}

/// A commit chain: `chain[i]` is the world after the first `i + 1`
/// updates were committed, so each link writes one update's targets into
/// the world before it, and the final world carries the last link's state
/// (age and the animating flag are accounted separately).
pub open spec fn spec_commit_chain(
    w0: World, w1: World, us: Seq<AnimationUpdate>, chain: Seq<World>,
) -> bool {
    &&& chain.len() == us.len()
    &&& forall|i: int| 0 <= i < us.len() ==> spec_animated(
        if i == 0 { w0 } else { chain[i - 1] }, #[trigger] chain[i], us[i])
    &&& spec_world_still(if us.len() == 0 { w0 } else { chain[us.len() - 1] }, w1)
}

/// A completed engine run commits every queued update in order: from the
/// start of the run there is a stepped world `mid`, differing only in
/// stepping poses, and from it a commit chain writing each update's
/// targets in turn, ending in the final world.
pub open spec fn spec_run_commits(
    w0: World, w1: World, us: Seq<AnimationUpdate>, mid: World, chain: Seq<World>,
) -> bool {
    same_except_transforms(w0, mid) && spec_commit_chain(mid, w1, us, chain)
}

/// The plan was computed from some world that differs from `w0` only in
/// stepping poses.
pub open spec fn plan_from_stepped(w0: World, graph: crate::graph::RenderGraph, plan: FramePlan) -> bool {
    exists|w: World| same_except_transforms(w0, w) && #[trigger] spec_plan_of(graph, w, plan)
}

/// The plan was computed from `w0` stepped by this update at the given
/// schedule parameter.
pub open spec fn plan_from_schedule(
    w0: World,
    graph: crate::graph::RenderGraph,
    a: Animation,
    ti: int,
    plan: FramePlan,
) -> bool {
    exists|w: World| spec_step_applied(w0, w, a, ti) && #[trigger] spec_plan_of(graph, w, plan)
}

/// A world is a no-op step away from itself: every touched-only claim
/// holds when the containers and cameras are simply equal.
proof fn lemma_step_touched_refl(w0: World, w1: World, u: AnimationUpdate)
    requires
        w1.meshes@ == w0.meshes@,
        w1.paths@ == w0.paths@,
        w1.ellipses@ == w0.ellipses@,
        w1.camera_3d == w0.camera_3d,
        w1.camera_2d == w0.camera_2d,
    ensures
        spec_step_touched(w0, w1, u),
{
    match u {
        AnimationUpdate::Transform3D(id, _, _, _) => {
            if 0 <= id && (id as int) < w0.meshes@.len() {
                assert(w1.meshes@ =~= w0.meshes@.update(id as int, Object3D {
                    transform: w1.meshes@[id as int].transform,
                    ..w0.meshes@[id as int]
                }));
            }
        },
        AnimationUpdate::PathTransform2D(id, _, _, _) => {
            if 0 <= id && (id as int) < w0.paths@.len() {
                assert(w1.paths@ =~= w0.paths@.update(id as int, PathConfig {
                    transform: w1.paths@[id as int].transform,
                    ..w0.paths@[id as int]
                }));
            }
        },
        AnimationUpdate::EllipseTransform2D(id, _, _, _) => {
            if 0 <= id && (id as int) < w0.ellipses@.len() {
                assert(w1.ellipses@ =~= w0.ellipses@.update(id as int, EllipseConfig {
                    transform: w1.ellipses@[id as int].transform,
                    ..w0.ellipses@[id as int]
                }));
            }
        },
        _ => {},
    }
}

/// Steps compose: a step written over a world that differs from the
/// start only in the same update's stepping pose is the same step written
/// over the start, since interpolation reads only rest state.
#[verifier::spinoff_prover]
#[verifier::rlimit(100)]
proof fn lemma_step_compose(w0: World, w1: World, w2: World, a: Animation, t: int)
    requires
        spec_step_touched(w0, w1, a.update),
        spec_step_applied(w1, w2, a, t),
    ensures
        spec_step_applied(w0, w2, a, t),
        spec_step_touched(w0, w2, a.update),
{
    match a.update {
        AnimationUpdate::Transform3D(id, s, p, r) => {
            if 0 <= id && (id as int) < w0.meshes@.len() {
                assert(w1.meshes@[id as int] == (Object3D {
                    transform: w1.meshes@[id as int].transform,
                    ..w0.meshes@[id as int]
                }));
                let e = a.interpolation.spec_apply(t);
                let base = w0.meshes@[id as int];
                assert(w2.meshes@ =~= w0.meshes@.update(id as int, Object3D {
                    transform: Pose3 {
                        scale: Vector {
                            x: crate::fixed::spec_lerp(base.scale.x as int, s.x as int, e) as i64,
                            y: crate::fixed::spec_lerp(base.scale.y as int, s.y as int, e) as i64,
                            z: crate::fixed::spec_lerp(base.scale.z as int, s.z as int, e) as i64,
                        },
                        position: Vector {
                            x: crate::fixed::spec_lerp(base.position.x as int, p.x as int, e) as i64,
                            y: crate::fixed::spec_lerp(base.position.y as int, p.y as int, e) as i64,
                            z: crate::fixed::spec_lerp(base.position.z as int, p.z as int, e) as i64,
                        },
                        rotation: Vector {
                            x: crate::fixed::spec_lerp(base.rotation.x as int, r.x as int, e) as i64,
                            y: crate::fixed::spec_lerp(base.rotation.y as int, r.y as int, e) as i64,
                            z: crate::fixed::spec_lerp(base.rotation.z as int, r.z as int, e) as i64,
                        },
                    },
                    ..base
                }));
                assert(w2.meshes@ =~= w0.meshes@.update(id as int, Object3D {
                    transform: w2.meshes@[id as int].transform,
                    ..w0.meshes@[id as int]
                }));
            }
        },
        AnimationUpdate::PathTransform2D(id, s, p, r) => {
            if 0 <= id && (id as int) < w0.paths@.len() {
                assert(w1.paths@[id as int] == (PathConfig {
                    transform: w1.paths@[id as int].transform,
                    ..w0.paths@[id as int]
                }));
                let e = a.interpolation.spec_apply(t);
                let base = w0.paths@[id as int];
                let ts = if s is Some { s->0 } else { base.scale };
                let tp = if p is Some { p->0 } else { base.position };
                let tr = if r is Some { r->0 } else { base.rotation };
                assert(w2.paths@ =~= w0.paths@.update(id as int, PathConfig {
                    transform: Pose2 {
                        scale: Vec2 {
                            x: crate::fixed::spec_lerp(base.scale.x as int, ts.x as int, e) as i64,
                            y: crate::fixed::spec_lerp(base.scale.y as int, ts.y as int, e) as i64,
                        },
                        position: Vec2 {
                            x: crate::fixed::spec_lerp(base.position.x as int, tp.x as int, e) as i64,
                            y: crate::fixed::spec_lerp(base.position.y as int, tp.y as int, e) as i64,
                        },
                        rotation: crate::fixed::spec_lerp(base.rotation as int, tr as int, e) as i64,
                    },
                    ..base
                }));
                assert(w2.paths@ =~= w0.paths@.update(id as int, PathConfig {
                    transform: w2.paths@[id as int].transform,
                    ..w0.paths@[id as int]
                }));
            }
        },
        AnimationUpdate::EllipseTransform2D(id, s, p, r) => {
            if 0 <= id && (id as int) < w0.ellipses@.len() {
                assert(w1.ellipses@[id as int] == (EllipseConfig {
                    transform: w1.ellipses@[id as int].transform,
                    ..w0.ellipses@[id as int]
                }));
                let e = a.interpolation.spec_apply(t);
                let base = w0.ellipses@[id as int];
                let ts = if s is Some { s->0 } else { base.scale };
                let tp = if p is Some { p->0 } else { base.position };
                let tr = if r is Some { r->0 } else { base.rotation };
                assert(w2.ellipses@ =~= w0.ellipses@.update(id as int, EllipseConfig {
                    transform: Pose2 {
                        scale: Vec2 {
                            x: crate::fixed::spec_lerp(base.scale.x as int, ts.x as int, e) as i64,
                            y: crate::fixed::spec_lerp(base.scale.y as int, ts.y as int, e) as i64,
                        },
                        position: Vec2 {
                            x: crate::fixed::spec_lerp(base.position.x as int, tp.x as int, e) as i64,
                            y: crate::fixed::spec_lerp(base.position.y as int, tp.y as int, e) as i64,
                        },
                        rotation: crate::fixed::spec_lerp(base.rotation as int, tr as int, e) as i64,
                    },
                    ..base
                }));
                assert(w2.ellipses@ =~= w0.ellipses@.update(id as int, EllipseConfig {
                    transform: w2.ellipses@[id as int].transform,
                    ..w0.ellipses@[id as int]
                }));
            }
        },
        _ => {},
    }
}

/// Computes the frame count of a duration at a frame rate.
fn frame_count(duration: i64, fps: i32) -> (r: i64)
    requires
        0 <= duration <= MAX_DURATION,
        0 < fps <= 240,
    ensures
        r as int == spec_frame_count(duration as int, fps as int),
        0 <= r <= 0x4000_0000,
{
    proof {
        assert(0 <= (duration as int) * (fps as int)
            && (duration as int) * (fps as int)
                <= 864000 * (UNIT as int))
            by (nonlinear_arith)
            requires 0 <= duration <= MAX_DURATION && 0 < fps <= 240
                && MAX_DURATION == 3600 * 65536 && UNIT == 65536,
        ;
        assert(0 * (UNIT as int) == 0) by (nonlinear_arith);
        crate::fixed::lemma_div_between(
            (duration as int) * (fps as int), 0, 864000, UNIT as int);
    }
    duration * (fps as i64) / UNIT
}

/// Writes one step's interpolated poses: for every queued update, the
/// matching entity's stepping pose is interpolated between its rest state
/// and the update's target by the eased weight of `t`; rest state,
/// geometry and everything else stay untouched.
#[verifier::spinoff_prover]
#[verifier::rlimit(100)]
fn apply_step(world: &mut World, animations: &Vec<Animation>, t: i64)
    requires
        old(world).wf(),
        world_poses_in_range(*old(world)),
        animations_in_range(animations@),
        0 <= t <= UNIT,
    ensures
        final(world).wf(),
        world_poses_in_range(*final(world)),
        same_except_transforms(*old(world), *final(world)),
        final(world).animating == old(world).animating,
        animations@.len() == 1 ==> spec_step_touched(
            *old(world), *final(world), animations@[0].update),
        animations@.len() == 1 ==> spec_step_applied(
            *old(world), *final(world), animations@[0], t as int),
{
    let n = animations.len();
    let mut i: usize = 0;
    while i < n
        invariant
            world.wf(),
            world_poses_in_range(*world),
            animations_in_range(animations@),
            n == animations@.len(),
            i <= n,
            0 <= t <= UNIT,
            same_except_transforms(*old(world), *world),
            world.animating == old(world).animating,
            n == 1 && i == 1 ==> spec_step_touched(*old(world), *world, animations@[0].update),
            n == 1 && i == 1 ==> spec_step_applied(*old(world), *world, animations@[0], t as int),
            i == 0 ==> *world == *old(world),
        decreases n - i,
    {
        let anim = &animations[i];
        match anim.update {
            AnimationUpdate::Transform3D(id, s, p, r) => {
                if id >= 0 && (id as usize) < world.meshes.len() {
                    let rest_scale = world.meshes[id as usize].scale;
                    let rest_pos = world.meshes[id as usize].position;
                    let rest_rot = world.meshes[id as usize].rotation;
                    let pose = anim.interpolation.transform3d(
                        t, &rest_scale, &rest_pos, &rest_rot, &s, &p, &r);
                    world.set_mesh_transform(id, pose);
                    proof {
                        let e = anim.interpolation.spec_apply(t as int);
                        assert(pose == (Pose3 {
                            scale: Vector {
                                x: crate::fixed::spec_lerp(rest_scale.x as int, s.x as int, e) as i64,
                                y: crate::fixed::spec_lerp(rest_scale.y as int, s.y as int, e) as i64,
                                z: crate::fixed::spec_lerp(rest_scale.z as int, s.z as int, e) as i64,
                            },
                            position: Vector {
                                x: crate::fixed::spec_lerp(rest_pos.x as int, p.x as int, e) as i64,
                                y: crate::fixed::spec_lerp(rest_pos.y as int, p.y as int, e) as i64,
                                z: crate::fixed::spec_lerp(rest_pos.z as int, p.z as int, e) as i64,
                            },
                            rotation: Vector {
                                x: crate::fixed::spec_lerp(rest_rot.x as int, r.x as int, e) as i64,
                                y: crate::fixed::spec_lerp(rest_rot.y as int, r.y as int, e) as i64,
                                z: crate::fixed::spec_lerp(rest_rot.z as int, r.z as int, e) as i64,
                            },
                        }));
                    }
                }
            },
            AnimationUpdate::PathTransform2D(id, s, p, r) => {
                if id >= 0 && (id as usize) < world.paths.len() {
                    let cfg = world.paths[id as usize];
                    let ts = match s { Some(v) => v, None => cfg.scale };
                    let tp = match p { Some(v) => v, None => cfg.position };
                    let tr = match r { Some(a) => a, None => cfg.rotation };
                    let pose = anim.interpolation.transform2d(
                        t, &cfg.scale, &cfg.position, cfg.rotation, &ts, &tp, tr);
                    world.set_path_transform(id, pose);
                    proof {
                        let e = anim.interpolation.spec_apply(t as int);
                        assert(pose == (Pose2 {
                            scale: Vec2 {
                                x: crate::fixed::spec_lerp(cfg.scale.x as int, ts.x as int, e) as i64,
                                y: crate::fixed::spec_lerp(cfg.scale.y as int, ts.y as int, e) as i64,
                            },
                            position: Vec2 {
                                x: crate::fixed::spec_lerp(cfg.position.x as int, tp.x as int, e) as i64,
                                y: crate::fixed::spec_lerp(cfg.position.y as int, tp.y as int, e) as i64,
                            },
                            rotation: crate::fixed::spec_lerp(cfg.rotation as int, tr as int, e) as i64,
                        }));
                    }
                }
            },
            AnimationUpdate::EllipseTransform2D(id, s, p, r) => {
                if id >= 0 && (id as usize) < world.ellipses.len() {
                    let cfg = world.ellipses[id as usize];
                    let ts = match s { Some(v) => v, None => cfg.scale };
                    let tp = match p { Some(v) => v, None => cfg.position };
                    let tr = match r { Some(a) => a, None => cfg.rotation };
                    let pose = anim.interpolation.transform2d(
                        t, &cfg.scale, &cfg.position, cfg.rotation, &ts, &tp, tr);
                    world.set_ellipse_transform(id, pose);
                    proof {
                        let e = anim.interpolation.spec_apply(t as int);
                        assert(pose == (Pose2 {
                            scale: Vec2 {
                                x: crate::fixed::spec_lerp(cfg.scale.x as int, ts.x as int, e) as i64,
                                y: crate::fixed::spec_lerp(cfg.scale.y as int, ts.y as int, e) as i64,
                            },
                            position: Vec2 {
                                x: crate::fixed::spec_lerp(cfg.position.x as int, tp.x as int, e) as i64,
                                y: crate::fixed::spec_lerp(cfg.position.y as int, tp.y as int, e) as i64,
                            },
                            rotation: crate::fixed::spec_lerp(cfg.rotation as int, tr as int, e) as i64,
                        }));
                    }
                }
            },
            AnimationUpdate::Camera3DTransform(s, p, r) => {
                let c = world.camera_3d;
                let pose = anim.interpolation.camera_transform3d(
                    t, &c.scale, &c.position, &c.rotation, &s, &p, &r);
                world.camera_3d.view = pose;
                proof {
                    let e = anim.interpolation.spec_apply(t as int);
                    assert(pose == (Pose3 {
                        scale: Vector {
                            x: crate::fixed::spec_lerp(c.scale.x as int, s.x as int, e) as i64,
                            y: crate::fixed::spec_lerp(c.scale.y as int, s.y as int, e) as i64,
                            z: crate::fixed::spec_lerp(c.scale.z as int, s.z as int, e) as i64,
                        },
                        position: Vector {
                            x: (-crate::fixed::spec_lerp(c.position.x as int, p.x as int, e)) as i64,
                            y: (-crate::fixed::spec_lerp(c.position.y as int, p.y as int, e)) as i64,
                            z: (-crate::fixed::spec_lerp(c.position.z as int, p.z as int, e)) as i64,
                        },
                        rotation: Vector {
                            x: (-crate::fixed::spec_lerp(c.rotation.x as int, r.x as int, e)) as i64,
                            y: (-crate::fixed::spec_lerp(c.rotation.y as int, r.y as int, e)) as i64,
                            z: (-crate::fixed::spec_lerp(c.rotation.z as int, r.z as int, e)) as i64,
                        },
                    }));
                }
            },
            AnimationUpdate::Camera2DTransform(s, p, r) => {
                let c = world.camera_2d;
                let pose = anim.interpolation.camera_transform2d(
                    t, &c.scale, &c.position, c.rotation, &s, &p, r);
                world.camera_2d.view = pose;
                proof {
                    let e = anim.interpolation.spec_apply(t as int);
                    assert(pose == (Pose2 {
                        scale: Vec2 {
                            x: crate::fixed::spec_lerp(c.scale.x as int, s.x as int, e) as i64,
                            y: crate::fixed::spec_lerp(c.scale.y as int, s.y as int, e) as i64,
                        },
                        position: Vec2 {
                            x: (-crate::fixed::spec_lerp(c.position.x as int, p.x as int, e)) as i64,
                            y: (-crate::fixed::spec_lerp(c.position.y as int, p.y as int, e)) as i64,
                        },
                        rotation: (-crate::fixed::spec_lerp(c.rotation as int, r as int, e)) as i64,
                    }));
                }
            },
            AnimationUpdate::Perspective(f, nn, ff) => {
                let cfg = world.camera_3d.config;
                if let CameraProjection::Perspective(f0, n0, fa0) = cfg {
                    let proj = anim.interpolation.perspective(
                        t, world.camera_3d.aspect, f0, n0, fa0, f, nn, ff);
                    world.camera_3d.projection = proj;
                    proof {
                        let e = anim.interpolation.spec_apply(t as int);
                        assert(proj == (PerspectiveParams {
                            aspect: world.camera_3d.aspect,
                            fov: crate::fixed::spec_lerp(f0 as int, f as int, e) as i64,
                            near: crate::fixed::spec_lerp(n0 as int, nn as int, e) as i64,
                            far: crate::fixed::spec_lerp(fa0 as int, ff as int, e) as i64,
                        }));
                    }
                }
            },
        }
        i = i + 1;
    }
}

/// Commits the animations: every target is written into its entity's rest
/// state and stepping pose.  With a single queued update the effect is
/// exactly [`spec_animated`].
#[verifier::spinoff_prover]
#[verifier::rlimit(100)]
fn commit_animations(world: &mut World, animations: &Vec<Animation>) -> (chain: Ghost<Seq<World>>)
    requires
        old(world).wf(),
        world_poses_in_range(*old(world)),
        animations_in_range(animations@),
    ensures
        final(world).wf(),
        world_poses_in_range(*final(world)),
        final(world).age == old(world).age,
        final(world).animating == old(world).animating,
        final(world).domain == old(world).domain,
        final(world).points == old(world).points,
        final(world).controls == old(world).controls,
        final(world).meshes@.len() == old(world).meshes@.len(),
        final(world).paths@.len() == old(world).paths@.len(),
        final(world).ellipses@.len() == old(world).ellipses@.len(),
        animations@.len() == 1 ==> spec_animated(
            *old(world), *final(world), animations@[0].update),
        spec_commit_chain(*old(world), *final(world), spec_updates(animations@), chain@),
{
    let ghost mut trail: Seq<World> = Seq::empty();
    let n = animations.len();
    let mut i: usize = 0;
    proof {
        assert(animations@.take(0) =~= Seq::<Animation>::empty());
        assert(spec_updates(animations@.take(0)) =~= Seq::<AnimationUpdate>::empty());
    }
    while i < n
        invariant
            world.wf(),
            world_poses_in_range(*world),
            animations_in_range(animations@),
            n == animations@.len(),
            i <= n,
            world.age == old(world).age,
            world.animating == old(world).animating,
            world.domain == old(world).domain,
            world.points == old(world).points,
            world.controls == old(world).controls,
            world.meshes@.len() == old(world).meshes@.len(),
            world.paths@.len() == old(world).paths@.len(),
            world.ellipses@.len() == old(world).ellipses@.len(),
            n == 1 && i == 1 ==> spec_animated(*old(world), *world, animations@[0].update),
            i == 0 ==> *world == *old(world),
            spec_commit_chain(*old(world), *world,
                spec_updates(animations@.take(i as int)), trail),
            i > 0 ==> trail.last() == *world,
        decreases n - i,
    {
        let ghost pre = *world;
        let anim = &animations[i];
        match anim.update {
            AnimationUpdate::Transform3D(id, s, p, r) => {
                world.commit_mesh_rest(id, s, p, r);
                world.set_mesh_transform(id, Pose3 { scale: s, position: p, rotation: r });
                proof {
                    if id >= 0 && (id as int) < pre.meshes@.len() {
                        assert(world.meshes@ =~= pre.meshes@.update(
                            id as int,
                            Object3D {
                                scale: s, position: p, rotation: r,
                                transform: Pose3 { scale: s, position: p, rotation: r },
                                ..pre.meshes@[id as int]
                            }));
                    }
                }
            },
            AnimationUpdate::PathTransform2D(id, s, p, r) => {
                world.commit_path_rest(id, s, p, r);
                if id >= 0 && (id as usize) < world.paths.len() {
                    let cfg = world.paths[id as usize];
                    world.set_path_transform(id, Pose2 {
                        scale: cfg.scale, position: cfg.position, rotation: cfg.rotation,
                    });
                    proof {
                        let base = pre.paths@[id as int];
                        let ns = if s is Some { s->0 } else { base.scale };
                        let np = if p is Some { p->0 } else { base.position };
                        let nr = if r is Some { r->0 } else { base.rotation };
                        assert(world.paths@ =~= pre.paths@.update(id as int, PathConfig {
                            scale: ns, position: np, rotation: nr,
                            transform: Pose2 { scale: ns, position: np, rotation: nr },
                            ..base
                        }));
                    }
                }
            },
            AnimationUpdate::EllipseTransform2D(id, s, p, r) => {
                world.commit_ellipse_rest(id, s, p, r);
                if id >= 0 && (id as usize) < world.ellipses.len() {
                    let cfg = world.ellipses[id as usize];
                    world.set_ellipse_transform(id, Pose2 {
                        scale: cfg.scale, position: cfg.position, rotation: cfg.rotation,
                    });
                    proof {
                        let base = pre.ellipses@[id as int];
                        let ns = if s is Some { s->0 } else { base.scale };
                        let np = if p is Some { p->0 } else { base.position };
                        let nr = if r is Some { r->0 } else { base.rotation };
                        assert(world.ellipses@ =~= pre.ellipses@.update(id as int, EllipseConfig {
                            scale: ns, position: np, rotation: nr,
                            transform: Pose2 { scale: ns, position: np, rotation: nr },
                            ..base
                        }));
                    }
                }
            },
            AnimationUpdate::Camera3DTransform(s, p, r) => {
                world.camera_3d.scale = s;
                world.camera_3d.position = p;
                world.camera_3d.rotation = r;
                world.camera_3d.view = Pose3 {
                    scale: s,
                    position: Vector { x: -p.x, y: -p.y, z: -p.z },
                    rotation: Vector { x: -r.x, y: -r.y, z: -r.z },
                };
            },
            AnimationUpdate::Camera2DTransform(s, p, r) => {
                world.camera_2d.scale = s;
                world.camera_2d.position = p;
                world.camera_2d.rotation = r;
                world.camera_2d.view = Pose2 {
                    scale: s,
                    position: Vec2 { x: -p.x, y: -p.y },
                    rotation: -r,
                };
            },
            AnimationUpdate::Perspective(f, nn, ff) => {
                let is_perspective = match world.camera_3d.config {
                    CameraProjection::Perspective(_, _, _) => true,
                    _ => false,
                };
                if is_perspective {
                    world.camera_3d.projection = PerspectiveParams {
                        aspect: world.camera_3d.aspect, fov: f, near: nn, far: ff,
                    };
                }
            },
        }
        proof {
            assert(spec_animated(pre, *world, animations@[i as int].update));
            trail = trail.push(*world);
            assert(animations@.take(i + 1) =~= animations@.take(i as int).push(
                animations@[i as int]));
            assert(spec_updates(animations@.take(i + 1)) =~= spec_updates(
                animations@.take(i as int)).push(animations@[i as int].update));
        }
        i = i + 1;
    }
    proof {
        assert(animations@.take(n as int) =~= animations@);
    }
    Ghost(trail)
}

/// The application: one world, one output, stepped by one animation at a
/// time.
pub struct App {
    pub world: World,
    pub output: Output,
}

impl App {
    /// A fresh application: an empty world in front of the stock output.
    pub fn new() -> (app: App)
        ensures
            app.world.wf(),
            world_poses_in_range(app.world),
            app.world.age == 0,
            !app.world.animating,
            app.world.meshes@.len() == 0,
            app.world.paths@.len() == 0,
            app.world.ellipses@.len() == 0,
            app.world.points@.len() == 0,
            app.world.controls@.len() == 0,
            app.world.lights@.len() == 0,
            video_wf(app.output.video),
            !app.output.video.writing,
            app.output.video.pts == 0,
            app.output.render_graph.wf(),
    {
        App {
            world: World::new(),
            output: Output::new(),
        }
    }

    /// Advances the world's age by `t` seconds and, when a stream is open,
    /// writes the current frame repeated once per output frame the span
    /// covers: exactly `t` times the frame rate, rounded down.
    pub fn wait(&mut self, t: i64) -> (r: (i32, Option<FramePlan>))
        requires
            old(self).world.wf(),
            video_wf(old(self).output.video),
            old(self).output.render_graph.wf(),
            0 <= t <= MAX_DURATION,
            scalar_in_range(old(self).world.age + t),
            old(self).output.video.pts <= 0x4000_0000_0000_0000,
        ensures
            final(self).world.age == old(self).world.age + t,
            final(self).output.render_graph == old(self).output.render_graph,
            video_wf(final(self).output.video),
            old(self).output.video.writing ==> {
                &&& r.0 as int == spec_frame_count(t as int,
                    old(self).output.video.config->Some_0.fps as int)
                &&& (r.1 matches Some(p)
                    && spec_plan_of(old(self).output.render_graph, final(self).world, p))
                &&& (r.0 > 0 ==> final(self).output.video.pts
                    == old(self).output.video.pts + r.0)
                &&& (r.0 <= 0 ==> final(self).output.video.pts == old(self).output.video.pts)
            },
            !old(self).output.video.writing ==> {
                &&& r.0 == 0 &&& r.1 is None
                &&& final(self).output.video == old(self).output.video
            },
            final(self).world == (World { age: final(self).world.age, ..old(self).world }),
    {
        self.world.age = self.world.age + t;
        match self.output.video.get_fps() {
            Some(fps) => {
                if self.output.video.writing {
                    let frames_i64: i64 = frame_count(t, fps);
                    let frames: i32 = frames_i64 as i32;
                    let plan = self.output.write(&self.world, frames);
                    (frames, plan)
                } else {
                    (0, None)
                }
            },
            None => (0, None),
        }
    }

    /// The world's age: elapsed simulated seconds, in fixed point.
    pub fn get_age(&self) -> (r: i64)
        ensures r == self.world.age,
    {
        self.world.age
    }

    /// A keyframe iterator over a span: one keyframe per output frame the
    /// duration covers at the open stream's rate; nothing without an open
    /// stream, since the schedule then has no rate.
    pub fn keyframes(&self, duration: i64) -> (r: Option<crate::keyframe::KeyframeIterator>)
        requires
            video_wf(self.output.video),
            0 <= duration <= MAX_DURATION,
        ensures
            self.output.video.config matches Some(c) ==> (r matches Some(it)
                && it.i == 0
                && it.frames as int == spec_frame_count(duration as int, c.fps as int)),
            self.output.video.config is None ==> r is None,
    {
        match self.output.video.get_fps() {
            Some(fps) => {
                let frames = frame_count(duration, fps);
                let delta = if frames > 0 { UNIT / frames } else { 0 };
                Some(crate::keyframe::KeyframeIterator {
                    i: 0,
                    delta,
                    frames: frames as usize,
                })
            },
            None => None,
        }
    }

    /// Runs one animation to completion: marks the world animating, steps
    /// the schedule writing interpolated poses and planning one frame per
    /// step, commits every target into its entity's rest state, advances
    /// the age by the duration, and clears the flag.  One call simulates
    /// at most an hour, so every intermediate count stays representable.
    ///
    /// The schedule has `duration` times the frame rate steps; with fewer
    /// than two steps, or with no open stream, the animation commits
    /// instantly without stepping.  One frame is written per step, so the
    /// returned plans — one per written frame — number exactly the frames
    /// the duration covers.
    pub fn run(&mut self, duration: i64, animations: &Vec<Animation>) -> (plans: Vec<FramePlan>)
        requires
            old(self).world.wf(),
            world_poses_in_range(old(self).world),
            animations_in_range(animations@),
            video_wf(old(self).output.video),
            old(self).output.render_graph.wf(),
            0 <= duration <= MAX_DURATION,
            scalar_in_range(old(self).world.age + duration),
            old(self).output.video.pts <= 0x4000_0000_0000_0000,
        ensures
            final(self).world.wf(),
            world_poses_in_range(final(self).world),
            final(self).world.age == old(self).world.age + duration,
            !final(self).world.animating,
            final(self).output.render_graph == old(self).output.render_graph,
            video_wf(final(self).output.video),
            final(self).output.video.writing == old(self).output.video.writing,
            final(self).output.video.config == old(self).output.video.config,
            ({
                let fps = old(self).output.video.config->Some_0.fps as int;
                let frames = spec_frame_count(duration as int, fps);
                &&& (old(self).output.video.writing && frames >= 2 ==> {
                    &&& plans@.len() == frames
                    &&& final(self).output.video.pts == old(self).output.video.pts + frames
                })
                &&& (!(old(self).output.video.writing && frames >= 2) ==> {
                    &&& plans@.len() == 0
                    &&& final(self).output.video.pts == old(self).output.video.pts
                })
                &&& forall|k: int| 0 <= k < plans@.len() ==> plan_from_stepped(
                    old(self).world, old(self).output.render_graph, #[trigger] plans@[k])
                &&& (animations@.len() == 1 ==> forall|k: int| 0 <= k < plans@.len()
                    ==> plan_from_schedule(
                        old(self).world, old(self).output.render_graph, animations@[0],
                        spec_step_t(k, frames), #[trigger] plans@[k]))
            }),
            animations@.len() == 1 ==> spec_animated(
                old(self).world,
                World { age: old(self).world.age, animating: old(self).world.animating,
                    ..final(self).world },
                animations@[0].update),
            exists|mid: World, chain: Seq<World>| #[trigger] spec_run_commits(
                old(self).world, final(self).world, spec_updates(animations@), mid, chain),
    {
        self.world.animating = true;
        let fps_frames: i64 = match self.output.video.get_fps() {
            Some(fps) => {
                if self.output.video.writing {
                    frame_count(duration, fps)
                } else {
                    0
                }
            },
            None => 0,
        };
        let mut plans: Vec<FramePlan> = Vec::new();
        if fps_frames >= 2 {
            let frames = fps_frames;
            let mut i: i64 = 0;
            while i < frames
                invariant
                    self.world.wf(),
                    world_poses_in_range(self.world),
                    animations_in_range(animations@),
                    same_except_transforms(old(self).world, self.world),
                    self.world.animating,
                    2 <= frames <= 0x4000_0000,
                    0 <= i <= frames,
                    plans@.len() == i,
                    self.output.render_graph == old(self).output.render_graph,
                    old(self).output.render_graph.wf(),
                    video_wf(self.output.video),
                    self.output.video.writing,
                    self.output.video.config == old(self).output.video.config,
                    self.output.video.pts == old(self).output.video.pts + i,
                    old(self).output.video.pts <= 0x4000_0000_0000_0000,
                    animations@.len() == 1 && i > 0 ==> spec_step_touched(
                        old(self).world, self.world, animations@[0].update),
                    i == 0 ==> self.world == (World {
                        animating: self.world.animating, ..old(self).world }),
                    frames as int == spec_frame_count(duration as int,
                        old(self).output.video.config->Some_0.fps as int),
                    forall|k: int| 0 <= k < plans@.len() ==> plan_from_stepped(
                        old(self).world, old(self).output.render_graph, #[trigger] plans@[k]),
                    animations@.len() == 1 ==> forall|k: int| 0 <= k < plans@.len()
                        ==> plan_from_schedule(
                            old(self).world, old(self).output.render_graph, animations@[0],
                            spec_step_t(k, frames as int), #[trigger] plans@[k]),
                decreases frames - i,
            {
                proof {
                    assert(0 <= i * (UNIT as int)
                        && i * (UNIT as int) <= (frames - 1) * (UNIT as int))
                        by (nonlinear_arith)
                        requires 0 <= i <= frames - 1 && UNIT == 65536,
                    ;
                    crate::fixed::lemma_div_between(
                        i * (UNIT as int), 0, UNIT as int, frames - 1 as int);
                    assert((UNIT as int) * (frames - 1) == (frames - 1) * (UNIT as int))
                        by (nonlinear_arith);
                    vstd::arithmetic::div_mod::lemma_div_multiples_vanish(
                        UNIT as int, frames - 1 as int);
                }
                let t: i64 = i * UNIT / (frames - 1);
                let ghost pre = self.world;
                apply_step(&mut self.world, animations, t);
                proof {
                    if animations@.len() == 1 {
                        if i == 0 {
                            lemma_step_touched_refl(old(self).world, pre, animations@[0].update);
                        }
                        lemma_step_compose(old(self).world, pre, self.world,
                            animations@[0], t as int);
                    }
                }
                let plan = self.output.write(&self.world, 1);
                match plan {
                    Some(p) => {
                        proof {
                            assert(spec_plan_of(old(self).output.render_graph, self.world, p));
                            assert(plan_from_stepped(
                                old(self).world, old(self).output.render_graph, p));
                            if animations@.len() == 1 {
                                assert(spec_step_applied(old(self).world, self.world,
                                    animations@[0], spec_step_t(i as int, frames as int)));
                                assert(plan_from_schedule(
                                    old(self).world, old(self).output.render_graph,
                                    animations@[0], spec_step_t(i as int, frames as int), p));
                            }
                        }
                        plans.push(p);
                    },
                    None => {
                        proof { assert(false); }
                    },
                }
                i = i + 1;
            }
        }
        let ghost stepped = self.world;
        let commit_chain = commit_animations(&mut self.world, animations);
        proof {
            if animations@.len() == 1 {
                match animations@[0].update {
                    AnimationUpdate::Transform3D(id, s, p, r) => {
                        if 0 <= id && (id as int) < old(self).world.meshes@.len() {
                            assert(self.world.meshes@ =~= old(self).world.meshes@.update(
                                id as int,
                                Object3D {
                                    scale: s, position: p, rotation: r,
                                    transform: Pose3 { scale: s, position: p, rotation: r },
                                    ..old(self).world.meshes@[id as int]
                                }));
                        }
                    },
                    AnimationUpdate::PathTransform2D(id, s, p, r) => {
                        if 0 <= id && (id as int) < old(self).world.paths@.len() {
                            let base = old(self).world.paths@[id as int];
                            let ns = if s is Some { s->0 } else { base.scale };
                            let np = if p is Some { p->0 } else { base.position };
                            let nr = if r is Some { r->0 } else { base.rotation };
                            assert(self.world.paths@ =~= old(self).world.paths@.update(
                                id as int,
                                PathConfig {
                                    scale: ns, position: np, rotation: nr,
                                    transform: Pose2 { scale: ns, position: np, rotation: nr },
                                    ..base
                                }));
                        }
                    },
                    AnimationUpdate::EllipseTransform2D(id, s, p, r) => {
                        if 0 <= id && (id as int) < old(self).world.ellipses@.len() {
                            let base = old(self).world.ellipses@[id as int];
                            let ns = if s is Some { s->0 } else { base.scale };
                            let np = if p is Some { p->0 } else { base.position };
                            let nr = if r is Some { r->0 } else { base.rotation };
                            assert(self.world.ellipses@ =~= old(self).world.ellipses@.update(
                                id as int,
                                EllipseConfig {
                                    scale: ns, position: np, rotation: nr,
                                    transform: Pose2 { scale: ns, position: np, rotation: nr },
                                    ..base
                                }));
                        }
                    },
                    _ => {},
                }
            }
        }
        let ghost committed = self.world;
        self.world.age = self.world.age + duration;
        self.world.animating = false;
        proof {
            assert(same_except_transforms(old(self).world, stepped));
            assert(spec_world_still(committed, self.world));
            assert(spec_commit_chain(stepped, self.world, spec_updates(animations@),
                commit_chain@));
            assert(spec_run_commits(old(self).world, self.world, spec_updates(animations@),
                stepped, commit_chain@));
        }
        plans
    }
}

} // verus!
