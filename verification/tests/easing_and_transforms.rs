use imagine::animation::Interpolation;
use imagine::fixed::{fmul, lerp, UNIT};
use imagine::math::{Vec2, Vector};
use imagine::transform::{Mat3, Mat4, Pose2, Pose3};

#[test]
fn easing_boundary_identity_all_kinds() {
    let kinds = [
        Interpolation::Linear,
        Interpolation::EaseIn,
        Interpolation::EaseOut,
        Interpolation::EaseInOut,
    ];
    for kind in kinds.iter() {
        assert_eq!(kind.apply(0), 0);
        assert_eq!(kind.apply(UNIT), UNIT);
    }
}

#[test]
fn easing_linear_is_identity() {
    let samples = [0, 1, 7, 1000, UNIT / 4, UNIT / 2, UNIT - 1, UNIT];
    for &t in samples.iter() {
        assert_eq!(Interpolation::Linear.apply(t), t);
    }
}

#[test]
fn easing_ease_in_is_cubic() {
    // (UNIT/2)^3 / UNIT^2 == UNIT/8
    assert_eq!(Interpolation::EaseIn.apply(UNIT / 2), UNIT / 8);
}

#[test]
fn easing_ease_in_out_midpoint() {
    // 4 * (1/2)^3 == 1/2 exactly
    assert_eq!(Interpolation::EaseInOut.apply(UNIT / 2), UNIT / 2);
}

#[test]
fn easing_ease_out_complements_ease_in() {
    let t = UNIT / 4;
    let ease_out = Interpolation::EaseOut.apply(t);
    let ease_in_mirror = Interpolation::EaseIn.apply(UNIT - t);
    assert_eq!(ease_out, UNIT - ease_in_mirror);
}

#[test]
fn fixed_point_products_and_lerp() {
    assert_eq!(fmul(3 * UNIT, 2 * UNIT), 6 * UNIT);
    assert_eq!(fmul(-3 * UNIT, 2 * UNIT), -6 * UNIT);
    assert_eq!(lerp(10 * UNIT, 20 * UNIT, 0), 10 * UNIT);
    assert_eq!(lerp(10 * UNIT, 20 * UNIT, UNIT), 20 * UNIT);
    assert_eq!(lerp(10 * UNIT, 20 * UNIT, UNIT / 2), 15 * UNIT);
    assert_eq!(lerp(20 * UNIT, 10 * UNIT, UNIT / 2), 15 * UNIT);
}

#[test]
fn transform2d_boundaries_recover_poses() {
    let kind = Interpolation::EaseInOut;
    let initial_scale = Vec2 { x: UNIT, y: UNIT };
    let initial_pos = Vec2 { x: 0, y: 0 };
    let final_scale = Vec2 { x: 2 * UNIT, y: 3 * UNIT };
    let final_pos = Vec2 { x: 5 * UNIT, y: -4 * UNIT };
    let at_zero = kind.transform2d(0, &initial_scale, &initial_pos, 0,
        &final_scale, &final_pos, UNIT);
    assert_eq!(at_zero, Pose2 { scale: initial_scale, position: initial_pos, rotation: 0 });
    let at_one = kind.transform2d(UNIT, &initial_scale, &initial_pos, 0,
        &final_scale, &final_pos, UNIT);
    assert_eq!(at_one, Pose2 { scale: final_scale, position: final_pos, rotation: UNIT });
}

#[test]
fn transform3d_boundary_matrix_matches_pure_pose_matrix() {
    let kind = Interpolation::Linear;
    let ones = Vector { x: UNIT, y: UNIT, z: UNIT };
    let zeros = Vector { x: 0, y: 0, z: 0 };
    let target_scale = Vector { x: 2 * UNIT, y: UNIT, z: UNIT };
    let target_pos = Vector { x: UNIT, y: 2 * UNIT, z: 3 * UNIT };
    let pose0 = kind.transform3d(0, &ones, &zeros, &zeros,
        &target_scale, &target_pos, &zeros);
    let initial_pose = Pose3 { scale: ones, position: zeros, rotation: zeros };
    assert_eq!(pose0, initial_pose);
    let rotation = Mat4::identity();
    let built_from_interp = Mat4::from_pose3(&pose0, &rotation);
    let built_from_initial = Mat4::from_pose3(&initial_pose, &rotation);
    assert_eq!(built_from_interp, built_from_initial);
    let pose1 = kind.transform3d(UNIT, &ones, &zeros, &zeros,
        &target_scale, &target_pos, &zeros);
    let final_pose = Pose3 { scale: target_scale, position: target_pos, rotation: zeros };
    assert_eq!(pose1, final_pose);
    assert_eq!(
        Mat4::from_pose3(&pose1, &rotation),
        Mat4::from_pose3(&final_pose, &rotation),
    );
}

#[test]
fn camera_transform2d_negates_eye_and_rotation() {
    let kind = Interpolation::Linear;
    let scale = Vec2 { x: UNIT, y: UNIT };
    let eye = Vec2 { x: 3 * UNIT, y: -2 * UNIT };
    let pose = kind.camera_transform2d(UNIT, &scale, &Vec2 { x: 0, y: 0 }, 0,
        &scale, &eye, UNIT);
    assert_eq!(pose.position, Vec2 { x: -3 * UNIT, y: 2 * UNIT });
    assert_eq!(pose.rotation, -UNIT);
}

#[test]
fn perspective_blends_parameters_linearly() {
    let kind = Interpolation::Linear;
    let params = kind.perspective(UNIT / 2, 116508,
        40 * UNIT, UNIT, 100 * UNIT,
        60 * UNIT, 3 * UNIT, 200 * UNIT);
    assert_eq!(params.aspect, 116508);
    assert_eq!(params.fov, 50 * UNIT);
    assert_eq!(params.near, 2 * UNIT);
    assert_eq!(params.far, 150 * UNIT);
}

#[test]
fn mat3_from_pose2_is_scale_translate_rotate_product() {
    // Identity rotation: cosine one, sine zero.
    let pose = Pose2 {
        scale: Vec2 { x: 2 * UNIT, y: 3 * UNIT },
        position: Vec2 { x: 4 * UNIT, y: 5 * UNIT },
        rotation: 0,
    };
    let m = Mat3::from_pose2(&pose, UNIT, 0);
    assert_eq!(m.m11, 2 * UNIT);
    assert_eq!(m.m12, 0);
    assert_eq!(m.m13, 8 * UNIT);
    assert_eq!(m.m21, 0);
    assert_eq!(m.m22, 3 * UNIT);
    assert_eq!(m.m23, 15 * UNIT);
    assert_eq!(m.m31, 0);
    assert_eq!(m.m32, 0);
    assert_eq!(m.m33, UNIT);
    // The same product, taken explicitly in the declared fixed order.
    let explicit = Mat3::new_scaling(&pose.scale)
        .multiply(&Mat3::new_translation(&pose.position))
        .multiply(&Mat3::new_rotation(UNIT, 0));
    assert_eq!(m, explicit);
}

#[test]
fn mat3_rotation_quarter_turn() {
    // A quarter turn: cosine zero, sine one.
    let pose = Pose2 {
        scale: Vec2 { x: UNIT, y: UNIT },
        position: Vec2 { x: 0, y: 0 },
        rotation: 102944,
    };
    let m = Mat3::from_pose2(&pose, 0, UNIT);
    assert_eq!(m.m11, 0);
    assert_eq!(m.m12, -UNIT);
    assert_eq!(m.m21, UNIT);
    assert_eq!(m.m22, 0);
}

#[test]
fn mat4_multiply_identity_is_identity() {
    let t = Mat4::new_translation(&Vector { x: UNIT, y: 2 * UNIT, z: 3 * UNIT });
    let product = Mat4::identity().multiply(&t);
    assert_eq!(product, t);
}
