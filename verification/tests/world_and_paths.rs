use imagine::fixed::UNIT;
use imagine::path::{Path, PathBuilder};
use imagine::shapes::{pentagon, rectangle, square, triangle};
use imagine::world::{Bounds, World};

#[test]
fn path_buffers_are_append_only_and_disjoint() {
    let mut world = World::new();
    let mut first = PathBuilder::new();
    first.move_to(0, 0);
    first.line_to(UNIT, 0);
    first.line_to(UNIT, UNIT);
    first.build(&mut world);
    assert_eq!(world.controls.len(), 2);
    assert_eq!(world.paths[0].path_segments, 2);

    let before_points = world.points.clone();
    let before_controls = world.controls.clone();

    let mut second = PathBuilder::new();
    second.move_to(0, 0);
    second.quad_to(2 * UNIT, 0, UNIT, UNIT);
    second.cubic_to(3 * UNIT, 0, 2 * UNIT, UNIT, 3 * UNIT, UNIT);
    second.build(&mut world);

    // Cumulative control count is the sum of each path's segment count.
    assert_eq!(world.paths[1].path_segments, 2);
    assert_eq!(world.controls.len(), 4);
    assert_eq!(&world.controls[..], &[0, 0, 1, 2]);

    // The first path's ranges were not touched by the second append.
    assert_eq!(&world.points[..before_points.len()], &before_points[..]);
    assert_eq!(&world.controls[..before_controls.len()], &before_controls[..]);
}

#[test]
fn dense_ascending_ids() {
    let mut world = World::new();
    let a = world.add_ellipse(UNIT, UNIT);
    let b = world.add_ellipse(2 * UNIT, UNIT);
    let c = world.add_ellipse(3 * UNIT, UNIT);
    assert_eq!((a, b, c), (0, 1, 2));
}

#[test]
fn square_bounds_centered_on_origin() {
    // A square of size five spans two and a half each way.
    let mut world = World::new();
    let size = 5 * UNIT;
    let p = square(&mut world, size);
    let bounds = p.get_bounds(&world).unwrap();
    let half = 5 * UNIT / 2;
    assert_eq!(half, 163840);
    assert_eq!(bounds, Bounds { min_x: -half, min_y: -half, max_x: half, max_y: half });
}

#[test]
fn triangle_and_rectangle_bounds() {
    let mut world = World::new();
    let t = triangle(&mut world, 4 * UNIT);
    assert_eq!(
        t.get_bounds(&world).unwrap(),
        Bounds { min_x: -2 * UNIT, min_y: -2 * UNIT, max_x: 2 * UNIT, max_y: 2 * UNIT },
    );
    let r = rectangle(&mut world, 10 * UNIT, 6 * UNIT);
    assert_eq!(
        r.get_bounds(&world).unwrap(),
        Bounds { min_x: -5 * UNIT, min_y: -3 * UNIT, max_x: 5 * UNIT, max_y: 3 * UNIT },
    );
}

#[test]
fn pentagon_has_five_segments() {
    let mut world = World::new();
    let p = pentagon(&mut world, 50 * UNIT);
    assert_eq!(world.paths[p.id as usize].path_segments, 5);
}

#[test]
fn builder_line_records_carry_their_start() {
    let mut b = PathBuilder::new();
    b.move_to(10, 20);
    b.line_to(30, 40);
    assert_eq!(&b.temp_points[..], &[10, 20, 30, 40]);
    assert_eq!(&b.temp_segments[..], &[0]);
    b.quad_to(70, 80, 50, 60);
    assert_eq!(&b.temp_points[4..], &[30, 40, 50, 60, 70, 80]);
    assert_eq!(&b.temp_segments[..], &[0, 1]);
}

#[test]
fn builder_close_returns_to_start() {
    let mut b = PathBuilder::new();
    b.move_to(0, 0);
    b.line_to(UNIT, 0);
    b.close();
    assert_eq!(&b.temp_segments[..], &[0, 0]);
    assert_eq!(&b.temp_points[4..], &[UNIT, 0, 0, 0]);
    assert!(b.start.is_none());
}

#[test]
fn builder_shift_moves_points_and_bounds() {
    let mut b = PathBuilder::new();
    b.move_to(0, 0);
    b.line_to(UNIT, UNIT);
    b.shift(5, -7);
    assert_eq!(&b.temp_points[..], &[5, -7, UNIT + 5, UNIT - 7]);
    let bounds = b.temp_bounds.unwrap();
    assert_eq!(bounds, Bounds { min_x: 5, min_y: -7, max_x: UNIT + 5, max_y: UNIT - 7 });
}

#[test]
fn set_transform_ignores_stale_id() {
    let mut world = World::new();
    world.add_ellipse(UNIT, UNIT);
    let before = world.ellipses[0].clone();
    world.set_ellipse_transform(
        7,
        imagine::transform::Pose2 {
            scale: imagine::math::Vec2 { x: 9, y: 9 },
            position: imagine::math::Vec2 { x: 9, y: 9 },
            rotation: 9,
        },
    );
    assert_eq!(world.ellipses.len(), 1);
    assert_eq!(world.ellipses[0].rotation, before.rotation);
    assert_eq!(world.ellipses[0].transform, before.transform);
}

#[test]
fn path_handle_reads_rotation() {
    let mut world = World::new();
    let p = square(&mut world, 2 * UNIT);
    assert_eq!(p.get_rotation(&world), 0);
    assert_eq!(Path { id: 99 }.get_rotation(&world), 0);
}
