//! Lightweight handles carrying the id of an entity in the world.

use vstd::prelude::*;

verus! {

use crate::animation::{Animation, AnimationUpdate, Interpolation};
use crate::fixed::{UNIT, scalar_in_range};
use crate::graph::FramePlan;
use crate::instance::{App, world_poses_in_range, update_in_range, MAX_DURATION};
use crate::math::Vec2;
use crate::video::video_wf;

/// A handle to a 2D entity.
#[derive(Clone, Copy, PartialEq, Eq, Structural, Debug)]
pub struct Object2DController {
    pub id: i32,
}

impl Object2DController {
    /// Runs one animation to completion through the engine.
    pub fn animate(&self, app: &mut App, animation: Animation) -> (plans: Vec<FramePlan>)
        requires
            old(app).world.wf(),
            world_poses_in_range(old(app).world),
            update_in_range(animation.update),
            video_wf(old(app).output.video),
            old(app).output.render_graph.wf(),
            0 <= animation.duration <= MAX_DURATION,
            scalar_in_range(old(app).world.age + animation.duration),
            old(app).output.video.pts <= 0x4000_0000_0000_0000,
        ensures
            final(app).world.wf(),
            world_poses_in_range(final(app).world),
            final(app).world.age == old(app).world.age + animation.duration,
            !final(app).world.animating,
            ({
                let fps = old(app).output.video.config->Some_0.fps as int;
                let frames = crate::instance::spec_frame_count(animation.duration as int, fps);
                &&& (old(app).output.video.writing && frames >= 2 ==> {
                    &&& plans@.len() == frames
                    &&& final(app).output.video.pts == old(app).output.video.pts + frames
                })
                &&& (!(old(app).output.video.writing && frames >= 2) ==> {
                    &&& plans@.len() == 0
                    &&& final(app).output.video.pts == old(app).output.video.pts
                })
            }),
            crate::instance::spec_animated(
                old(app).world,
                crate::world::World {
                    age: old(app).world.age,
                    animating: old(app).world.animating,
                    ..final(app).world
                },
                animation.update),
    {
        let duration = animation.duration;
        let mut animations: Vec<Animation> = Vec::new();
        animations.push(animation);
        app.run(duration, &animations)
    }

    /// Rotates the entity to `angle` over `duration` seconds with linear
    /// easing, resetting its scale and position targets to rest values.
    pub fn rotate(&self, app: &mut App, duration: i64, angle: i64) -> (plans: Vec<FramePlan>)
        requires
            old(app).world.wf(),
            world_poses_in_range(old(app).world),
            video_wf(old(app).output.video),
            old(app).output.render_graph.wf(),
            0 <= duration <= MAX_DURATION,
            scalar_in_range(old(app).world.age + duration),
            old(app).output.video.pts <= 0x4000_0000_0000_0000,
            scalar_in_range(angle as int),
        ensures
            final(app).world.wf(),
            world_poses_in_range(final(app).world),
            final(app).world.age == old(app).world.age + duration,
            !final(app).world.animating,
            ({
                let fps = old(app).output.video.config->Some_0.fps as int;
                let frames = crate::instance::spec_frame_count(duration as int, fps);
                &&& (old(app).output.video.writing && frames >= 2 ==> {
                    &&& plans@.len() == frames
                    &&& final(app).output.video.pts == old(app).output.video.pts + frames
                })
                &&& (!(old(app).output.video.writing && frames >= 2) ==> {
                    &&& plans@.len() == 0
                    &&& final(app).output.video.pts == old(app).output.video.pts
                })
            }),
    {
        self.animate(app, Animation {
            duration,
            update: AnimationUpdate::PathTransform2D(
                self.id,
                Some(Vec2 { x: UNIT, y: UNIT }),
                Some(Vec2 { x: 0, y: 0 }),
                Some(angle),
            ),
            interpolation: Interpolation::Linear,
        })
    }
}

/// A handle to a mesh.
#[derive(Clone, Copy, PartialEq, Eq, Structural, Debug)]
pub struct Object3DController {
    pub id: i32,
}

/// A handle to the 2D camera.
#[derive(Clone, Copy, PartialEq, Eq, Structural, Debug)]
pub struct Camera2DController {
    pub id: i32,
}

/// A handle to the 3D camera.
#[derive(Clone, Copy, PartialEq, Eq, Structural, Debug)]
pub struct Camera3DController {
    pub id: i32,
}

} // verus!
