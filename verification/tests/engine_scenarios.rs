use imagine::animation::{Animation, AnimationUpdate, Interpolation};
use imagine::ellipse::Ellipse;
use imagine::fixed::UNIT;
use imagine::instance::App;
use imagine::shader::{fragment_shader, vertex_shader, ShaderKind};
use imagine::keyframe::KeyframeIterator;
use imagine::math::{Vec2, Vector};

/// The fixed-point value closest to half a turn.
const PI_FX: i64 = 205887;

#[test]
fn animation_advances_age_by_duration_and_commits_targets() {
    let mut app = App::new();
    app.output.start_video("out.mp4", 24, 100, 100, 8000);
    let e = Ellipse::new(&mut app.world, 10 * UNIT, 10 * UNIT);
    let mut animations = Vec::new();
    animations.push(Animation {
        duration: UNIT,
        update: AnimationUpdate::EllipseTransform2D(
            e.id, Some(Vec2 { x: 2 * UNIT, y: 3 * UNIT }), None, None),
        interpolation: Interpolation::EaseInOut,
    });
    let plans = app.run(UNIT, &animations);
    // One second at twenty-four frames per second: exactly twenty-four
    // steps, one planned frame each.
    assert_eq!(plans.len(), 24);
    assert_eq!(app.output.video.pts, 24);
    // The age advanced by exactly the duration.
    assert_eq!(app.world.age, UNIT);
    assert!(!app.world.animating);
    // The rest scale is exactly the target, not an interpolated midpoint.
    assert_eq!(app.world.ellipses[0].scale, Vec2 { x: 2 * UNIT, y: 3 * UNIT });
    assert_eq!(app.world.ellipses[0].position, Vec2 { x: 0, y: 0 });
}

#[test]
fn ellipse_rotate_commits_exact_angle() {
    let mut app = App::new();
    let e = Ellipse::new(&mut app.world, 10 * UNIT, 10 * UNIT);
    // No stream is open, so the engine commits instantly; the rest
    // rotation afterwards is the exact angle that was asked for.
    e.rotate(&mut app, UNIT, PI_FX);
    assert_eq!(e.get_rotation(&app.world), PI_FX);
    assert_eq!(app.world.age, UNIT);
}

#[test]
fn mid_animation_rotation_is_eased_fraction_of_angle() {
    // Halfway through, ease-in-out weighs exactly one half, so the stepped
    // rotation is half the target angle.
    let kind = Interpolation::EaseInOut;
    let pose = kind.transform2d(
        UNIT / 2,
        &Vec2 { x: UNIT, y: UNIT },
        &Vec2 { x: 0, y: 0 },
        0,
        &Vec2 { x: UNIT, y: UNIT },
        &Vec2 { x: 0, y: 0 },
        PI_FX,
    );
    assert_eq!(kind.apply(UNIT / 2), UNIT / 2);
    assert_eq!(pose.rotation, PI_FX / 2);
}

#[test]
fn record_then_wait_writes_exactly_fps_frames() {
    let mut app = App::new();
    app.output.start_video("out.mp4", 24, 100, 100, 8000);
    let (frames, plan) = app.wait(UNIT);
    assert_eq!(frames, 24);
    assert!(plan.is_some());
    assert_eq!(app.output.video.pts, 24);
    assert_eq!(app.world.age, UNIT);
}

#[test]
fn wait_without_a_stream_writes_nothing() {
    let mut app = App::new();
    let (frames, plan) = app.wait(2 * UNIT);
    assert_eq!(frames, 0);
    assert!(plan.is_none());
    assert_eq!(app.output.video.pts, 0);
    assert_eq!(app.world.age, 2 * UNIT);
}

#[test]
fn stale_id_animation_changes_no_entity() {
    let mut app = App::new();
    app.world.add_ellipse(UNIT, UNIT);
    let mut animations = Vec::new();
    animations.push(Animation {
        duration: UNIT,
        update: AnimationUpdate::EllipseTransform2D(
            42, Some(Vec2 { x: 9 * UNIT, y: 9 * UNIT }), None, None),
        interpolation: Interpolation::Linear,
    });
    app.run(UNIT, &animations);
    assert_eq!(app.world.ellipses[0].scale, Vec2 { x: UNIT, y: UNIT });
    assert_eq!(app.world.age, UNIT);
}

#[test]
fn camera_animation_negates_view() {
    let mut app = App::new();
    let mut animations = Vec::new();
    animations.push(Animation {
        duration: UNIT,
        update: AnimationUpdate::Camera2DTransform(
            Vec2 { x: UNIT, y: UNIT }, Vec2 { x: 3 * UNIT, y: 4 * UNIT }, UNIT),
        interpolation: Interpolation::Linear,
    });
    app.run(UNIT, &animations);
    assert_eq!(app.world.camera_2d.position, Vec2 { x: 3 * UNIT, y: 4 * UNIT });
    assert_eq!(app.world.camera_2d.view.position, Vec2 { x: -3 * UNIT, y: -4 * UNIT });
    assert_eq!(app.world.camera_2d.view.rotation, -UNIT);
}

#[test]
fn perspective_animation_rebuilds_projection() {
    let mut app = App::new();
    let mut animations = Vec::new();
    animations.push(Animation {
        duration: UNIT,
        update: AnimationUpdate::Perspective(60 * UNIT, 2 * UNIT, 500 * UNIT),
        interpolation: Interpolation::Linear,
    });
    app.run(UNIT, &animations);
    assert_eq!(app.world.camera_3d.projection.fov, 60 * UNIT);
    assert_eq!(app.world.camera_3d.projection.near, 2 * UNIT);
    assert_eq!(app.world.camera_3d.projection.far, 500 * UNIT);
}

#[test]
fn mesh_animation_commits_rest_pose() {
    let mut app = App::new();
    let m = imagine::mesh::cube(&mut app.world);
    let target = Vector { x: 2 * UNIT, y: 2 * UNIT, z: 2 * UNIT };
    let shift = Vector { x: UNIT, y: 0, z: 0 };
    let spin = Vector { x: 0, y: 0, z: PI_FX };
    let mut animations = Vec::new();
    animations.push(Animation {
        duration: UNIT,
        update: AnimationUpdate::Transform3D(m.world_object.id, target, shift, spin),
        interpolation: Interpolation::EaseOut,
    });
    app.run(UNIT, &animations);
    let mesh = &app.world.meshes[0];
    assert_eq!(mesh.scale, target);
    assert_eq!(mesh.position, shift);
    assert_eq!(mesh.rotation, spin);
    assert_eq!(mesh.transform.scale, target);
}

#[test]
fn keyframe_iterator_ends_at_one() {
    let mut it = KeyframeIterator { i: 0, delta: UNIT / 4, frames: 4 };
    let t1 = it.next().unwrap();
    assert_eq!(t1.t, UNIT / 4);
    let t2 = it.next().unwrap();
    assert_eq!(t2.t, UNIT / 2);
    let t3 = it.next().unwrap();
    assert_eq!(t3.t, 3 * (UNIT / 4));
    let t4 = it.next().unwrap();
    assert_eq!(t4.t, UNIT);
    assert!(it.next().is_none());
}

#[test]
fn degenerate_duration_commits_without_stepping() {
    let mut app = App::new();
    app.output.start_video("out.mp4", 24, 100, 100, 8000);
    let e = Ellipse::new(&mut app.world, UNIT, UNIT);
    // A duration so short it covers at most one frame: no stepping, but
    // the commit and the age advance still happen.
    let tiny = UNIT / 32;
    let plans = e.rotate(&mut app, tiny, PI_FX);
    assert_eq!(plans.len(), 0);
    assert_eq!(app.output.video.pts, 0);
    assert_eq!(e.get_rotation(&app.world), PI_FX);
    assert_eq!(app.world.age, tiny);
}

#[test]
fn app_keyframes_follow_the_stream_rate() {
    let mut app = App::new();
    assert!(app.keyframes(UNIT).is_none());
    app.output.start_video("out.mp4", 24, 100, 100, 8000);
    let it = app.keyframes(UNIT).unwrap();
    assert_eq!(it.frames, 24);
    assert_eq!(it.i, 0);
    assert_eq!(app.get_age(), 0);
    assert_eq!(app.output.get_width(), 1920);
    assert_eq!(app.output.get_height(), 1080);
    assert!(app.output.get_recording_status());
}

#[test]
fn shader_kinds_report_their_stage() {
    let v = vertex_shader(String::from("void main() {}"));
    assert_eq!(v.get_type(), "vertex");
    assert!(matches!(v.kind, ShaderKind::Vertex));
    let f = fragment_shader(String::from("void main() {}"));
    assert_eq!(f.get_type(), "fragment");
}
