//! Ellipses and the handle they are driven through.

use vstd::prelude::*;

verus! {

use crate::animation::{Animation, AnimationUpdate, Interpolation};
use crate::fixed::scalar_in_range;
use crate::graph::FramePlan;
use crate::instance::{App, world_poses_in_range, spec_animated, MAX_DURATION};
use crate::math::Vec2;
use crate::video::video_wf;
use crate::world::World;

/// A handle to an ellipse in the world.
#[derive(Clone, Copy, PartialEq, Eq, Structural, Debug)]
pub struct Ellipse {
    pub id: i32,
}

impl Ellipse {
    /// Places a new ellipse with the given extents and hands back its
    /// handle.
    pub fn new(world: &mut World, width: i64, height: i64) -> (e: Ellipse)
        requires
            old(world).wf(),
            old(world).ellipses@.len() < 0x7fff_ffff,
        ensures
            final(world).wf(),
            e.id as int == old(world).ellipses@.len(),
            final(world).ellipses@.len() == old(world).ellipses@.len() + 1,
            final(world).ellipses@.last().width == width,
            final(world).ellipses@.last().height == height,
            final(world).paths@ == old(world).paths@,
            final(world).meshes@ == old(world).meshes@,
            final(world).age == old(world).age,
            final(world).animating == old(world).animating,
            world_poses_in_range(*old(world)) ==> world_poses_in_range(*final(world)),
    {
        let id = world.add_ellipse(width, height);
        Ellipse { id }
    }

    /// The ellipse's rest rotation angle, or zero for a stale id.
    pub fn get_rotation(&self, world: &World) -> (r: i64)
        ensures
            0 <= self.id && (self.id as int) < world.ellipses@.len()
                ==> r == world.ellipses@[self.id as int].rotation,
            !(0 <= self.id && (self.id as int) < world.ellipses@.len()) ==> r == 0,
    {
        if self.id >= 0 && (self.id as usize) < world.ellipses.len() {
            world.ellipses[self.id as usize].rotation
        } else {
            0
        }
    }

    /// Overwrites the ellipse's rest rotation angle; a no-op for a stale
    /// id.
    pub fn set_rotation(&self, world: &mut World, angle: i64)
        ensures
            old(world).wf() ==> final(world).wf(),
            0 <= self.id && (self.id as int) < old(world).ellipses@.len()
                ==> final(world).ellipses@[self.id as int].rotation == angle,
    {
        world.commit_ellipse_rest(self.id, None, None, Some(angle));
    }

    /// Animates the ellipse's scale toward `(x, y)` over `t` seconds with
    /// ease-in-out easing, committing the target as the new rest scale.
    pub fn grow(&self, app: &mut App, x: i64, y: i64, t: i64) -> (plans: Vec<FramePlan>)
        requires
            old(app).world.wf(),
            world_poses_in_range(old(app).world),
            video_wf(old(app).output.video),
            old(app).output.render_graph.wf(),
            0 <= t <= MAX_DURATION,
            scalar_in_range(old(app).world.age + t),
            old(app).output.video.pts <= 0x4000_0000_0000_0000,
            scalar_in_range(x as int),
            scalar_in_range(y as int),
        ensures
            final(app).world.wf(),
            world_poses_in_range(final(app).world),
            final(app).world.age == old(app).world.age + t,
            !final(app).world.animating,
            ({
                let fps = old(app).output.video.config->Some_0.fps as int;
                let frames = crate::instance::spec_frame_count(t as int, fps);
                &&& (old(app).output.video.writing && frames >= 2 ==> {
                    &&& plans@.len() == frames
                    &&& final(app).output.video.pts == old(app).output.video.pts + frames
                })
                &&& (!(old(app).output.video.writing && frames >= 2) ==> {
                    &&& plans@.len() == 0
                    &&& final(app).output.video.pts == old(app).output.video.pts
                })
            }),
            spec_animated(
                old(app).world,
                World { age: old(app).world.age, animating: old(app).world.animating,
                    ..final(app).world },
                AnimationUpdate::EllipseTransform2D(
                    self.id, Some(Vec2 { x, y }), None, None)),
    {
        let mut animations: Vec<Animation> = Vec::new();
        animations.push(Animation {
            duration: t,
            update: AnimationUpdate::EllipseTransform2D(self.id, Some(Vec2 { x, y }), None, None),
            interpolation: Interpolation::EaseInOut,
        });
        app.run(t, &animations)
    }

    /// Animates the ellipse's position toward `(x, y)` over `t` seconds
    /// with ease-in-out easing, committing the target as the new rest
    /// position.
    pub fn translate(&self, app: &mut App, x: i64, y: i64, t: i64) -> (plans: Vec<FramePlan>)
        requires
            old(app).world.wf(),
            world_poses_in_range(old(app).world),
            video_wf(old(app).output.video),
            old(app).output.render_graph.wf(),
            0 <= t <= MAX_DURATION,
            scalar_in_range(old(app).world.age + t),
            old(app).output.video.pts <= 0x4000_0000_0000_0000,
            scalar_in_range(x as int),
            scalar_in_range(y as int),
        ensures
            final(app).world.wf(),
            world_poses_in_range(final(app).world),
            final(app).world.age == old(app).world.age + t,
            !final(app).world.animating,
            ({
                let fps = old(app).output.video.config->Some_0.fps as int;
                let frames = crate::instance::spec_frame_count(t as int, fps);
                &&& (old(app).output.video.writing && frames >= 2 ==> {
                    &&& plans@.len() == frames
                    &&& final(app).output.video.pts == old(app).output.video.pts + frames
                })
                &&& (!(old(app).output.video.writing && frames >= 2) ==> {
                    &&& plans@.len() == 0
                    &&& final(app).output.video.pts == old(app).output.video.pts
                })
            }),
            spec_animated(
                old(app).world,
                World { age: old(app).world.age, animating: old(app).world.animating,
                    ..final(app).world },
                AnimationUpdate::EllipseTransform2D(
                    self.id, None, Some(Vec2 { x, y }), None)),
    {
        let mut animations: Vec<Animation> = Vec::new();
        animations.push(Animation {
            duration: t,
            update: AnimationUpdate::EllipseTransform2D(self.id, None, Some(Vec2 { x, y }), None),
            interpolation: Interpolation::EaseInOut,
        });
        app.run(t, &animations)
    }

    /// Animates the ellipse's rotation toward `angle` over `t` seconds
    /// with ease-in-out easing, committing the target as the new rest
    /// rotation.
    pub fn rotate(&self, app: &mut App, t: i64, angle: i64) -> (plans: Vec<FramePlan>)
        requires
            old(app).world.wf(),
            world_poses_in_range(old(app).world),
            video_wf(old(app).output.video),
            old(app).output.render_graph.wf(),
            0 <= t <= MAX_DURATION,
            scalar_in_range(old(app).world.age + t),
            old(app).output.video.pts <= 0x4000_0000_0000_0000,
            scalar_in_range(angle as int),
        ensures
            final(app).world.wf(),
            world_poses_in_range(final(app).world),
            final(app).world.age == old(app).world.age + t,
            !final(app).world.animating,
            ({
                let fps = old(app).output.video.config->Some_0.fps as int;
                let frames = crate::instance::spec_frame_count(t as int, fps);
                &&& (old(app).output.video.writing && frames >= 2 ==> {
                    &&& plans@.len() == frames
                    &&& final(app).output.video.pts == old(app).output.video.pts + frames
                })
                &&& (!(old(app).output.video.writing && frames >= 2) ==> {
                    &&& plans@.len() == 0
                    &&& final(app).output.video.pts == old(app).output.video.pts
                })
            }),
            spec_animated(
                old(app).world,
                World { age: old(app).world.age, animating: old(app).world.animating,
                    ..final(app).world },
                AnimationUpdate::EllipseTransform2D(self.id, None, None, Some(angle))),
    {
        let mut animations: Vec<Animation> = Vec::new();
        animations.push(Animation {
            duration: t,
            update: AnimationUpdate::EllipseTransform2D(self.id, None, None, Some(angle)),
            interpolation: Interpolation::EaseInOut,
        });
        app.run(t, &animations)
    }
}

/// A circle: an ellipse of equal extents.
pub fn circle(world: &mut World, radius: i64) -> (e: Ellipse)
    requires
        old(world).wf(),
        old(world).ellipses@.len() < 0x7fff_ffff,
    ensures
        final(world).wf(),
        e.id as int == old(world).ellipses@.len(),
        final(world).ellipses@.len() == old(world).ellipses@.len() + 1,
        final(world).ellipses@.last().width == radius,
        final(world).ellipses@.last().height == radius,
        world_poses_in_range(*old(world)) ==> world_poses_in_range(*final(world)),
    {
        Ellipse::new(world, radius, radius)
    }

} // verus!
