//! The scene world: every placeable entity, keyed by a dense integer id,
//! together with the packed geometry buffers shared by all paths.
//!
//! Ids are assigned as the current container length, so they are dense,
//! ascending and never reused; entities are never deleted.  The packed
//! `points` and `controls` buffers are append-only: a path's geometry
//! occupies a contiguous range that never moves, addressed by offsets
//! accumulated from the `path_segments` counts of the paths before it.

use vstd::prelude::*;

verus! {

use crate::color::Color;
use crate::math::{Vector, Vec2, vector_in_range, vec2_in_range};
use crate::transform::{Pose2, Pose3, PerspectiveParams};
use crate::fixed::{UNIT, scalar_in_range};
use crate::controller::{Object3DController, Camera2DController, Camera3DController};

/// The fixed-point value closest to a sixteen-to-nine aspect ratio.
pub const ASPECT_16_9: i64 = 116508;

/// The default 2D camera scale: a hundredfold enlargement.
pub const CAMERA_SCALE_2D: i64 = 100 * 65536;

/// The default 3D camera distance from the origin.
pub const CAMERA_EYE_Z: i64 = 5 * 65536;

/// The default field of view, in fixed-point degrees.
pub const DEFAULT_FOV: i64 = 45 * 65536;

/// The default near plane.
pub const DEFAULT_NEAR: i64 = 65536;

/// The default far plane.
pub const DEFAULT_FAR: i64 = 1000 * 65536;

/// Which family of entities the render graph reads when it draws a frame.
#[derive(Clone, Copy, PartialEq, Eq, Structural, Debug)]
pub enum Domain {
    World3D,
    World2D,
    Default,
}

/// How a path's stroke ends are capped; `NoStroke` leaves the outline
/// undrawn.
#[derive(Clone, Copy, PartialEq, Eq, Structural, Debug)]
pub enum StrokeLinecap {
    NoStroke,
    Butt,
    Round,
    Square,
}

/// An axis-aligned bounding box.
#[derive(Clone, Copy, PartialEq, Eq, Structural, Debug)]
pub struct Bounds {
    pub min_x: i64,
    pub min_y: i64,
    pub max_x: i64,
    pub max_y: i64,
}

/// One mesh vertex: position, normal and texture coordinates.
#[derive(Clone, Copy, PartialEq, Eq, Structural, Debug)]
pub struct Vertex3D {
    pub position: Vector,
    pub normal: Vector,
    pub uv: Vec2,
}

/// A mesh entity: geometry, a material name, the rest pose, and the pose
/// used while an animation is stepping.
#[derive(Clone, Debug)]
pub struct Object3D {
    pub material: String,
    pub vertices: Vec<Vertex3D>,
    pub indices: Vec<u32>,
    pub scale: Vector,
    pub position: Vector,
    pub rotation: Vector,
    pub transform: Pose3,
}

/// A path entity's drawing state; its geometry lives in the world's packed
/// buffers and is addressed through `path_segments` and `point_len`.
#[derive(Clone, Copy, Debug)]
pub struct PathConfig {
    pub opacity: i64,
    pub filled: bool,
    pub evenodd: bool,
    pub linecap: StrokeLinecap,
    pub bounds: Bounds,
    /// How many entries of the packed `controls` buffer this path owns.
    pub path_segments: usize,
    /// How many entries of the packed `points` buffer this path owns.
    pub point_len: usize,
    pub fill: Color,
    pub stroke: Color,
    pub scale: Vec2,
    pub position: Vec2,
    pub rotation: i64,
    pub transform: Pose2,
}

/// An ellipse entity.
#[derive(Clone, Copy, Debug)]
pub struct EllipseConfig {
    pub opacity: i64,
    pub width: i64,
    pub height: i64,
    pub fill: Color,
    pub stroke: Color,
    pub scale: Vec2,
    pub position: Vec2,
    pub rotation: i64,
    pub transform: Pose2,
}

/// A point light.
#[derive(Clone, Copy, PartialEq, Eq, Structural, Debug)]
pub struct WorldLight {
    pub position: Vector,
}

/// The projection a 3D camera was configured with.
#[derive(Clone, Copy, PartialEq, Eq, Structural, Debug)]
pub enum CameraProjection {
    /// Field of view, near plane, far plane.
    Perspective(i64, i64, i64),
    /// Left, right, bottom, top, near, far.
    Orthographic(i64, i64, i64, i64, i64, i64),
}

/// The 3D camera: its rest pose, its current view pose, and its projection.
#[derive(Clone, Copy, Debug)]
pub struct Camera3D {
    pub aspect: i64,
    pub scale: Vector,
    pub position: Vector,
    pub rotation: Vector,
    pub view: Pose3,
    pub projection: PerspectiveParams,
    pub config: CameraProjection,
}

/// The 2D camera: its rest state and its current view pose.
#[derive(Clone, Copy, Debug)]
pub struct Camera2D {
    pub aspect: i64,
    pub rotation: i64,
    pub scale: Vec2,
    pub position: Vec2,
    pub view: Pose2,
}

impl Camera3D {
    /// A camera five units back from the origin with a standard
    /// perspective projection.
    pub fn default() -> (c: Camera3D)
        ensures
            c.aspect == ASPECT_16_9,
            c.scale == (Vector { x: UNIT, y: UNIT, z: UNIT }),
            c.position == (Vector { x: 0i64, y: 0i64, z: CAMERA_EYE_Z }),
            c.rotation == (Vector { x: 0i64, y: 0i64, z: 0i64 }),
            c.view.position == (Vector { x: 0i64, y: 0i64, z: (-CAMERA_EYE_Z) as i64 }),
            c.config == CameraProjection::Perspective(DEFAULT_FOV, DEFAULT_NEAR, DEFAULT_FAR),
    {
        Camera3D {
            aspect: ASPECT_16_9,
            scale: Vector { x: UNIT, y: UNIT, z: UNIT },
            position: Vector { x: 0, y: 0, z: CAMERA_EYE_Z },
            rotation: Vector { x: 0, y: 0, z: 0 },
            view: Pose3 {
                scale: Vector { x: UNIT, y: UNIT, z: UNIT },
                position: Vector { x: 0, y: 0, z: -CAMERA_EYE_Z },
                rotation: Vector { x: 0, y: 0, z: 0 },
            },
            projection: PerspectiveParams {
                aspect: ASPECT_16_9,
                fov: DEFAULT_FOV,
                near: DEFAULT_NEAR,
                far: DEFAULT_FAR,
            },
            config: CameraProjection::Perspective(DEFAULT_FOV, DEFAULT_NEAR, DEFAULT_FAR),
        }
    }
}

impl Camera2D {
    /// A camera scaling the scene up a hundredfold, centered on the origin.
    pub fn default() -> (c: Camera2D)
        ensures
            c.aspect == ASPECT_16_9,
            c.rotation == 0,
            c.scale == (Vec2 { x: CAMERA_SCALE_2D, y: CAMERA_SCALE_2D }),
            c.position == (Vec2 { x: 0i64, y: 0i64 }),
            c.view == (Pose2 {
                scale: Vec2 { x: CAMERA_SCALE_2D, y: CAMERA_SCALE_2D },
                position: Vec2 { x: 0i64, y: 0i64 },
                rotation: 0i64,
            }),
    {
        Camera2D {
            aspect: ASPECT_16_9,
            rotation: 0,
            scale: Vec2 { x: CAMERA_SCALE_2D, y: CAMERA_SCALE_2D },
            position: Vec2 { x: 0, y: 0 },
            view: Pose2 {
                scale: Vec2 { x: CAMERA_SCALE_2D, y: CAMERA_SCALE_2D },
                position: Vec2 { x: 0, y: 0 },
                rotation: 0,
            },
        }
    }
}

/// How many straight segments one control code tessellates into.
pub open spec fn spec_control_segments(c: u8) -> int {
    if c == 0 { 1 } else if c == 1 { 10 } else if c == 2 { 100 } else { 0 }
}

/// How many packed coordinates one control code's record occupies: the
/// start and end point, plus two per control point.
pub open spec fn spec_control_coords(c: u8) -> int {
    4 + 2 * (c as int)
}

/// How many packed coordinates the first `k` records from `si` occupy.
pub open spec fn spec_coord_total(controls: Seq<u8>, si: int, k: int) -> int
    decreases k,
{
    if k <= 0 { 0 } else {
        spec_coord_total(controls, si, k - 1) + spec_control_coords(controls[si + k - 1])
    }
}

/// How many straight segments the first `k` records from `si` produce.
pub open spec fn spec_seg_total(controls: Seq<u8>, si: int, k: int) -> int
    decreases k,
{
    if k <= 0 { 0 } else {
        spec_seg_total(controls, si, k - 1) + spec_control_segments(controls[si + k - 1])
    }
}

/// Record totals grow record by record, so every prefix fits under the
/// whole, and segment counts are bounded by a hundred per record.
pub proof fn lemma_totals_grow(controls: Seq<u8>, si: int, k: int, n: int)
    requires
        0 <= k <= n,
    ensures
        spec_coord_total(controls, si, k) <= spec_coord_total(controls, si, n),
        spec_seg_total(controls, si, k) <= spec_seg_total(controls, si, n),
        0 <= spec_coord_total(controls, si, k),
        0 <= spec_seg_total(controls, si, k),
        spec_seg_total(controls, si, n) <= 100 * n,
    decreases n,
{
    if n > 0 {
        if k == n {
            lemma_totals_grow(controls, si, k - 1, n - 1);
        } else {
            lemma_totals_grow(controls, si, k, n - 1);
        }
    }
}

/// Totals over a range only read the entries of that range: buffers that
/// agree there, possibly at shifted positions, accumulate alike.
pub proof fn lemma_totals_shift(big: Seq<u8>, small: Seq<u8>, si: int, k: int)
    requires
        forall|j: int| 0 <= j < k ==> big[si + j] == small[j],
    ensures
        spec_coord_total(big, si, k) == spec_coord_total(small, 0, k),
        spec_seg_total(big, si, k) == spec_seg_total(small, 0, k),
    decreases k,
{
    if k > 0 {
        lemma_totals_shift(big, small, si, k - 1);
    }
}

/// A run of records splits at any point: the whole total is the total of
/// the first part plus the total of the rest, taken from where the first
/// part ends.
pub proof fn lemma_totals_split(controls: Seq<u8>, si: int, a: int, b: int)
    requires
        0 <= a,
        0 <= b,
    ensures
        spec_coord_total(controls, si, a + b)
            == spec_coord_total(controls, si, a) + spec_coord_total(controls, si + a, b),
        spec_seg_total(controls, si, a + b)
            == spec_seg_total(controls, si, a) + spec_seg_total(controls, si + a, b),
    decreases b,
{
    if b > 0 {
        lemma_totals_split(controls, si, a, b - 1);
    }
}

/// How many packed control entries the paths own together.
pub open spec fn total_segments(paths: Seq<PathConfig>) -> int
    decreases paths.len(),
{
    if paths.len() == 0 {
        0
    } else {
        total_segments(paths.drop_last()) + paths.last().path_segments
    }
}

/// How many packed point entries the paths own together.
pub open spec fn total_points(paths: Seq<PathConfig>) -> int
    decreases paths.len(),
{
    if paths.len() == 0 {
        0
    } else {
        total_points(paths.drop_last()) + paths.last().point_len
    }
}

/// Where path `i`'s range of the packed `controls` buffer begins.
pub open spec fn segment_offset(paths: Seq<PathConfig>, i: int) -> int {
    total_segments(paths.take(i))
}

/// Where path `i`'s range of the packed `points` buffer begins.
pub open spec fn point_offset(paths: Seq<PathConfig>, i: int) -> int {
    total_points(paths.take(i))
}

/// Every rest pose and camera parameter of the world lies within the
/// scalar range interpolation accepts.
pub open spec fn world_poses_in_range(w: World) -> bool {
    &&& forall|i: int| 0 <= i < w.meshes@.len() ==> {
        let m = #[trigger] w.meshes@[i];
        vector_in_range(m.scale) && vector_in_range(m.position) && vector_in_range(m.rotation)
    }
    &&& forall|i: int| 0 <= i < w.paths@.len() ==> {
        let p = #[trigger] w.paths@[i];
        vec2_in_range(p.scale) && vec2_in_range(p.position) && scalar_in_range(p.rotation as int)
    }
    &&& forall|i: int| 0 <= i < w.ellipses@.len() ==> {
        let e = #[trigger] w.ellipses@[i];
        vec2_in_range(e.scale) && vec2_in_range(e.position) && scalar_in_range(e.rotation as int)
    }
    &&& vector_in_range(w.camera_3d.scale)
    &&& vector_in_range(w.camera_3d.position)
    &&& vector_in_range(w.camera_3d.rotation)
    &&& scalar_in_range(w.camera_3d.aspect as int)
    &&& (w.camera_3d.config matches CameraProjection::Perspective(f, n, fa)
        ==> scalar_in_range(f as int) && scalar_in_range(n as int) && scalar_in_range(fa as int))
    &&& vec2_in_range(w.camera_2d.scale)
    &&& vec2_in_range(w.camera_2d.position)
    &&& scalar_in_range(w.camera_2d.rotation as int)
}

/// The scene world.
pub struct World {
    /// Elapsed simulated seconds, in fixed point.
    pub age: i64,
    pub domain: Domain,
    pub camera_3d: Camera3D,
    pub camera_2d: Camera2D,
    pub lights: Vec<WorldLight>,
    /// Meshes, keyed by their index.
    pub meshes: Vec<Object3D>,
    /// Ellipses, keyed by their index.
    pub ellipses: Vec<EllipseConfig>,
    /// Paths, keyed by their index, in ascending id order.
    pub paths: Vec<PathConfig>,
    /// The packed, append-only point buffer all paths share.
    pub points: Vec<i64>,
    /// The packed, append-only control-code buffer all paths share.
    pub controls: Vec<u8>,
    /// Whether an animation is stepping, so rendering reads interpolated
    /// rather than rest transforms.
    pub animating: bool,
}

/// Everything but the mesh container agrees between the two worlds.
pub open spec fn same_but_meshes(a: World, b: World) -> bool {
    &&& a.age == b.age &&& a.domain == b.domain
    &&& a.camera_3d == b.camera_3d &&& a.camera_2d == b.camera_2d
    &&& a.lights == b.lights &&& a.ellipses == b.ellipses
    &&& a.paths == b.paths &&& a.points == b.points
    &&& a.controls == b.controls &&& a.animating == b.animating
}

/// Everything but the path container agrees between the two worlds.
pub open spec fn same_but_paths(a: World, b: World) -> bool {
    &&& a.age == b.age &&& a.domain == b.domain
    &&& a.camera_3d == b.camera_3d &&& a.camera_2d == b.camera_2d
    &&& a.lights == b.lights &&& a.ellipses == b.ellipses
    &&& a.meshes == b.meshes &&& a.points == b.points
    &&& a.controls == b.controls &&& a.animating == b.animating
}

/// Everything but the ellipse container agrees between the two worlds.
pub open spec fn same_but_ellipses(a: World, b: World) -> bool {
    &&& a.age == b.age &&& a.domain == b.domain
    &&& a.camera_3d == b.camera_3d &&& a.camera_2d == b.camera_2d
    &&& a.lights == b.lights &&& a.meshes == b.meshes
    &&& a.paths == b.paths &&& a.points == b.points
    &&& a.controls == b.controls &&& a.animating == b.animating
}

impl World {
    /// The packed buffers hold exactly the entries the paths own: their
    /// lengths are the accumulated counts of every path.  The buffers stay
    /// small enough, and their coordinates bounded enough, that the
    /// tessellation arithmetic the render graph performs on them is exact,
    /// and every mesh's index count fits a draw call.
    pub open spec fn wf(self) -> bool {
        &&& self.controls@.len() == total_segments(self.paths@)
        &&& self.points@.len() == total_points(self.paths@)
        &&& self.points@.len() == spec_coord_total(self.controls@, 0, self.controls@.len() as int)
        &&& self.controls@.len() <= 0x10_0000
        &&& self.points@.len() <= 0x200_0000
        &&& forall|k: int| 0 <= k < self.points@.len()
            ==> -(crate::fixed::GEOM_LIMIT) <= #[trigger] self.points@[k] <= crate::fixed::GEOM_LIMIT
        &&& forall|k: int| 0 <= k < self.meshes@.len()
            ==> #[trigger] self.meshes@[k].indices@.len() <= 0xffff_ffff
    }

    /// An empty world: no entities, default cameras, age zero.
    pub fn new() -> (w: World)
        ensures
            w.wf(),
            w.age == 0,
            w.domain == Domain::Default,
            w.lights@.len() == 0,
            w.meshes@.len() == 0,
            w.ellipses@.len() == 0,
            w.paths@.len() == 0,
            w.points@.len() == 0,
            w.controls@.len() == 0,
            !w.animating,
            w.camera_2d.scale == (Vec2 { x: CAMERA_SCALE_2D, y: CAMERA_SCALE_2D }),
            w.camera_2d.rotation == 0,
            w.camera_2d.position == (Vec2 { x: 0i64, y: 0i64 }),
            w.camera_2d.aspect == ASPECT_16_9,
            w.camera_3d.position == (Vector { x: 0i64, y: 0i64, z: CAMERA_EYE_Z }),
            w.camera_3d.scale == (Vector { x: UNIT, y: UNIT, z: UNIT }),
            w.camera_3d.rotation == (Vector { x: 0i64, y: 0i64, z: 0i64 }),
            w.camera_3d.aspect == ASPECT_16_9,
            w.camera_3d.config == CameraProjection::Perspective(DEFAULT_FOV, DEFAULT_NEAR, DEFAULT_FAR),
    {
        World {
            age: 0,
            domain: Domain::Default,
            camera_3d: Camera3D::default(),
            camera_2d: Camera2D::default(),
            lights: Vec::new(),
            meshes: Vec::new(),
            ellipses: Vec::new(),
            paths: Vec::new(),
            points: Vec::new(),
            controls: Vec::new(),
            animating: false,
        }
    }

    /// Appends a mesh and hands back a controller carrying its id, which is
    /// the position the mesh was stored at.
    pub fn add_mesh(&mut self, object: Object3D) -> (r: Object3DController)
        requires
            old(self).meshes@.len() < 0x7fff_ffff,
            object.indices@.len() <= 0xffff_ffff,
        ensures
            r.id as int == old(self).meshes@.len(),
            final(self).meshes@ == old(self).meshes@.push(object),
            same_but_meshes(*final(self), *old(self)),
            old(self).wf() ==> final(self).wf(),
            world_poses_in_range(*old(self))
                && vector_in_range(object.scale)
                && vector_in_range(object.position)
                && vector_in_range(object.rotation)
                ==> world_poses_in_range(*final(self)),
    {
        let id = self.meshes.len() as i32;
        self.meshes.push(object);
        Object3DController { id }
    }

    /// Appends an ellipse with the given extents and default drawing state,
    /// and hands back its id.
    pub fn add_ellipse(&mut self, width: i64, height: i64) -> (id: i32)
        requires
            old(self).ellipses@.len() < 0x7fff_ffff,
        ensures
            id as int == old(self).ellipses@.len(),
            final(self).ellipses@ == old(self).ellipses@.push(EllipseConfig {
                opacity: UNIT,
                width,
                height,
                fill: Color { r: 255u8, g: 255u8, b: 255u8 },
                stroke: Color { r: 255u8, g: 0u8, b: 0u8 },
                scale: Vec2 { x: UNIT, y: UNIT },
                position: Vec2 { x: 0i64, y: 0i64 },
                rotation: 0i64,
                transform: Pose2 {
                    scale: Vec2 { x: UNIT, y: UNIT },
                    position: Vec2 { x: 0i64, y: 0i64 },
                    rotation: 0i64,
                },
            }),
            same_but_ellipses(*final(self), *old(self)),
            old(self).wf() ==> final(self).wf(),
            world_poses_in_range(*old(self)) ==> world_poses_in_range(*final(self)),
    {
        let id = self.ellipses.len() as i32;
        self.ellipses.push(EllipseConfig {
            opacity: UNIT,
            width,
            height,
            fill: Color::white(),
            stroke: Color::red(),
            scale: Vec2 { x: UNIT, y: UNIT },
            position: Vec2 { x: 0, y: 0 },
            rotation: 0,
            transform: Pose2 {
                scale: Vec2 { x: UNIT, y: UNIT },
                position: Vec2 { x: 0, y: 0 },
                rotation: 0,
            },
        });
        id
    }

    /// Appends a path: its geometry is appended to the packed buffers,
    /// never to be moved again, and its drawing state starts from the
    /// defaults.  The new path's id is the number of paths before it.
    pub fn add_path(
        &mut self,
        points: &Vec<i64>,
        controls: &Vec<u8>,
        bounds: Bounds,
        path_segments: usize,
    ) -> (id: i32)
        requires
            old(self).wf(),
            old(self).paths@.len() < 0x7fff_ffff,
            path_segments == controls@.len(),
            old(self).controls@.len() + controls@.len() <= 0x10_0000,
            old(self).points@.len() + points@.len() <= 0x200_0000,
            points@.len() == spec_coord_total(controls@, 0, controls@.len() as int),
            forall|k: int| 0 <= k < points@.len()
                ==> -(crate::fixed::GEOM_LIMIT) <= #[trigger] points@[k] <= crate::fixed::GEOM_LIMIT,
        ensures
            final(self).wf(),
            id as int == old(self).paths@.len(),
            final(self).points@ == old(self).points@ + points@,
            final(self).controls@ == old(self).controls@ + controls@,
            final(self).paths@.len() == old(self).paths@.len() + 1,
            final(self).paths@ =~= old(self).paths@.push(final(self).paths@.last()),
            final(self).paths@.last().path_segments == path_segments,
            final(self).paths@.last().point_len == points@.len(),
            final(self).paths@.last().bounds == bounds,
            final(self).paths@.last() == (PathConfig {
                opacity: UNIT,
                filled: true,
                evenodd: true,
                linecap: StrokeLinecap::NoStroke,
                bounds,
                path_segments,
                point_len: final(self).paths@.last().point_len,
                fill: Color { r: 255u8, g: 255u8, b: 255u8 },
                stroke: Color { r: 255u8, g: 0u8, b: 0u8 },
                scale: Vec2 { x: UNIT, y: UNIT },
                position: Vec2 { x: 0i64, y: 0i64 },
                rotation: 0i64,
                transform: Pose2 {
                    scale: Vec2 { x: UNIT, y: UNIT },
                    position: Vec2 { x: 0i64, y: 0i64 },
                    rotation: 0i64,
                },
            }),
            world_poses_in_range(*old(self)) ==> world_poses_in_range(*final(self)),
            final(self).age == old(self).age,
            final(self).meshes@ == old(self).meshes@,
            final(self).ellipses@ == old(self).ellipses@,
            final(self).animating == old(self).animating,
            final(self).domain == old(self).domain,
            final(self).camera_2d == old(self).camera_2d,
            final(self).camera_3d == old(self).camera_3d,
            segment_offset(final(self).paths@, id as int) == old(self).controls@.len(),
            point_offset(final(self).paths@, id as int) == old(self).points@.len(),
    {
        let id = self.paths.len() as i32;
        let point_len = points.len();

        let mut i: usize = 0;
        while i < points.len()
            invariant
                i <= points@.len(),
                self.points@ == old(self).points@ + points@.take(i as int),
                self.controls@ == old(self).controls@,
                self.paths@ == old(self).paths@,
                self.meshes@ == old(self).meshes@,
                self.ellipses@ == old(self).ellipses@,
                self.age == old(self).age,
                self.animating == old(self).animating,
                self.domain == old(self).domain,
                self.camera_2d == old(self).camera_2d,
                self.camera_3d == old(self).camera_3d,
                self.lights@ == old(self).lights@,
                points@.len() <= 0x200_0000 - old(self).points@.len(),
                forall|k: int| 0 <= k < points@.len()
                    ==> -(crate::fixed::GEOM_LIMIT) <= #[trigger] points@[k] <= crate::fixed::GEOM_LIMIT,
            decreases points@.len() - i,
        {
            self.points.push(points[i]);
            proof {
                assert(points@.take(i as int).push(points@[i as int]) =~= points@.take(i + 1));
            }
            i = i + 1;
        }
        proof {
            assert(points@.take(points@.len() as int) =~= points@);
        }

        let mut j: usize = 0;
        while j < controls.len()
            invariant
                j <= controls@.len(),
                self.points@ == old(self).points@ + points@,
                self.controls@ == old(self).controls@ + controls@.take(j as int),
                self.paths@ == old(self).paths@,
                self.meshes@ == old(self).meshes@,
                self.ellipses@ == old(self).ellipses@,
                self.age == old(self).age,
                self.animating == old(self).animating,
                self.domain == old(self).domain,
                self.camera_2d == old(self).camera_2d,
                self.camera_3d == old(self).camera_3d,
                self.lights@ == old(self).lights@,
                controls@.len() <= 0x10_0000 - old(self).controls@.len(),
            decreases controls@.len() - j,
        {
            self.controls.push(controls[j]);
            proof {
                assert(controls@.take(j as int).push(controls@[j as int]) =~= controls@.take(j + 1));
            }
            j = j + 1;
        }
        proof {
            assert(controls@.take(controls@.len() as int) =~= controls@);
        }

        let config = PathConfig {
            opacity: UNIT,
            filled: true,
            evenodd: true,
            linecap: StrokeLinecap::NoStroke,
            bounds,
            path_segments,
            point_len,
            fill: Color::white(),
            stroke: Color::red(),
            scale: Vec2 { x: UNIT, y: UNIT },
            position: Vec2 { x: 0, y: 0 },
            rotation: 0,
            transform: Pose2 {
                scale: Vec2 { x: UNIT, y: UNIT },
                position: Vec2 { x: 0, y: 0 },
                rotation: 0,
            },
        };
        self.paths.push(config);
        proof {
            let new_paths = self.paths@;
            let old_paths = old(self).paths@;
            assert(new_paths.drop_last() =~= old_paths);
            assert(old_paths.take(id as int) =~= old_paths);
            let oldc = old(self).controls@;
            let newc = self.controls@;
            let n1 = oldc.len() as int;
            let n2 = controls@.len() as int;
            lemma_totals_split(newc, 0, n1, n2);
            lemma_totals_shift(newc, oldc, 0, n1);
            lemma_totals_shift(newc, controls@, n1, n2);
        }
        id
    }

    /// Records a 2D camera controller; the world keeps a single 2D camera,
    /// so the controller always addresses it.
    pub fn add_camera2d(&mut self, camera: Camera2D) -> (r: Camera2DController)
        ensures
            r.id == 0,
            *final(self) == *old(self),
    {
        let _ = camera;
        Camera2DController { id: 0 }
    }

    /// Records a 3D camera controller; the world keeps a single 3D camera,
    /// so the controller always addresses it.
    pub fn add_camera3d(&mut self, camera: Camera3D) -> (r: Camera3DController)
        ensures
            r.id == 0,
            *final(self) == *old(self),
    {
        let _ = camera;
        Camera3DController { id: 0 }
    }

    /// Writes the stepping pose of the mesh at `id`; silently a no-op when
    /// no such mesh exists, so a stale id never faults.
    pub fn set_mesh_transform(&mut self, id: i32, transform: Pose3)
        ensures
            0 <= id && (id as int) < old(self).meshes@.len() ==> {
                &&& final(self).meshes@ == old(self).meshes@.update(id as int, Object3D {
                    transform,
                    ..old(self).meshes@[id as int]
                })
                &&& same_but_meshes(*final(self), *old(self))
            },
            !(0 <= id && (id as int) < old(self).meshes@.len()) ==> *final(self) == *old(self),
            old(self).wf() ==> final(self).wf(),
    {
        if id >= 0 && (id as usize) < self.meshes.len() {
            let i = id as usize;
            let entry = &mut self.meshes[i];
            entry.transform = transform;
        }
    }

    /// Writes the stepping pose of the path at `id`; silently a no-op when
    /// no such path exists.
    pub fn set_path_transform(&mut self, id: i32, transform: Pose2)
        ensures
            0 <= id && (id as int) < old(self).paths@.len() ==> {
                &&& final(self).paths@ == old(self).paths@.update(id as int, PathConfig {
                    transform,
                    ..old(self).paths@[id as int]
                })
                &&& same_but_paths(*final(self), *old(self))
            },
            !(0 <= id && (id as int) < old(self).paths@.len()) ==> *final(self) == *old(self),
            old(self).wf() ==> final(self).wf(),
    {
        if id >= 0 && (id as usize) < self.paths.len() {
            let i = id as usize;
            let ghost old_paths = self.paths@;
            let entry = &mut self.paths[i];
            entry.transform = transform;
            proof {
                lemma_totals_update(old_paths, i as int, self.paths@[i as int]);
            }
        }
    }

    /// Writes the stepping pose of the ellipse at `id`; silently a no-op
    /// when no such ellipse exists.
    pub fn set_ellipse_transform(&mut self, id: i32, transform: Pose2)
        ensures
            0 <= id && (id as int) < old(self).ellipses@.len() ==> {
                &&& final(self).ellipses@ == old(self).ellipses@.update(id as int, EllipseConfig {
                    transform,
                    ..old(self).ellipses@[id as int]
                })
                &&& same_but_ellipses(*final(self), *old(self))
            },
            !(0 <= id && (id as int) < old(self).ellipses@.len()) ==> *final(self) == *old(self),
            old(self).wf() ==> final(self).wf(),
    {
        if id >= 0 && (id as usize) < self.ellipses.len() {
            let i = id as usize;
            let entry = &mut self.ellipses[i];
            entry.transform = transform;
        }
    }

    /// Replaces the rest pose of the mesh at `id` with the animation's
    /// target; silently a no-op when no such mesh exists.
    pub fn commit_mesh_rest(&mut self, id: i32, scale: Vector, position: Vector, rotation: Vector)
        ensures
            0 <= id && (id as int) < old(self).meshes@.len() ==> {
                &&& final(self).meshes@ == old(self).meshes@.update(id as int, Object3D {
                    scale,
                    position,
                    rotation,
                    ..old(self).meshes@[id as int]
                })
                &&& same_but_meshes(*final(self), *old(self))
            },
            !(0 <= id && (id as int) < old(self).meshes@.len()) ==> *final(self) == *old(self),
            old(self).wf() ==> final(self).wf(),
    {
        if id >= 0 && (id as usize) < self.meshes.len() {
            let i = id as usize;
            let entry = &mut self.meshes[i];
            entry.scale = scale;
            entry.position = position;
            entry.rotation = rotation;
        }
    }

    /// Replaces the rest state of the path at `id` with the animation's
    /// target; components the animation left out stay as they were.
    /// Silently a no-op when no such path exists.
    pub fn commit_path_rest(
        &mut self,
        id: i32,
        scale: Option<Vec2>,
        position: Option<Vec2>,
        rotation: Option<i64>,
    )
        ensures
            0 <= id && (id as int) < old(self).paths@.len() ==> {
                &&& final(self).paths@ == old(self).paths@.update(id as int, PathConfig {
                    scale: if scale is Some { scale->0 } else { old(self).paths@[id as int].scale },
                    position: if position is Some { position->0 } else { old(self).paths@[id as int].position },
                    rotation: if rotation is Some { rotation->0 } else { old(self).paths@[id as int].rotation },
                    ..old(self).paths@[id as int]
                })
                &&& same_but_paths(*final(self), *old(self))
            },
            !(0 <= id && (id as int) < old(self).paths@.len()) ==> *final(self) == *old(self),
            old(self).wf() ==> final(self).wf(),
    {
        if id >= 0 && (id as usize) < self.paths.len() {
            let i = id as usize;
            let ghost old_paths = self.paths@;
            let entry = &mut self.paths[i];
            if let Some(s) = scale {
                entry.scale = s;
            }
            if let Some(p) = position {
                entry.position = p;
            }
            if let Some(r) = rotation {
                entry.rotation = r;
            }
            proof {
                lemma_totals_update(old_paths, i as int, self.paths@[i as int]);
            }
        }
    }

    /// Replaces the rest state of the ellipse at `id` with the animation's
    /// target; components the animation left out stay as they were.
    /// Silently a no-op when no such ellipse exists.
    pub fn commit_ellipse_rest(
        &mut self,
        id: i32,
        scale: Option<Vec2>,
        position: Option<Vec2>,
        rotation: Option<i64>,
    )
        ensures
            0 <= id && (id as int) < old(self).ellipses@.len() ==> {
                &&& final(self).ellipses@ == old(self).ellipses@.update(id as int, EllipseConfig {
                    scale: if scale is Some { scale->0 } else { old(self).ellipses@[id as int].scale },
                    position: if position is Some { position->0 } else { old(self).ellipses@[id as int].position },
                    rotation: if rotation is Some { rotation->0 } else { old(self).ellipses@[id as int].rotation },
                    ..old(self).ellipses@[id as int]
                })
                &&& same_but_ellipses(*final(self), *old(self))
            },
            !(0 <= id && (id as int) < old(self).ellipses@.len()) ==> *final(self) == *old(self),
            old(self).wf() ==> final(self).wf(),
    {
        if id >= 0 && (id as usize) < self.ellipses.len() {
            let i = id as usize;
            let entry = &mut self.ellipses[i];
            if let Some(s) = scale {
                entry.scale = s;
            }
            if let Some(p) = position {
                entry.position = p;
            }
            if let Some(r) = rotation {
                entry.rotation = r;
            }
        }
    }
}

/// Updating a path without touching its buffer counts leaves the
/// accumulated totals unchanged.
pub proof fn lemma_totals_update(s: Seq<PathConfig>, i: int, p: PathConfig)
    requires
        0 <= i < s.len(),
        p.path_segments == s[i].path_segments,
        p.point_len == s[i].point_len,
    ensures
        total_segments(s.update(i, p)) == total_segments(s),
        total_points(s.update(i, p)) == total_points(s),
    decreases s.len(),
{
    if i == s.len() - 1 {
        assert(s.update(i, p).drop_last() =~= s.drop_last());
    } else {
        assert(s.update(i, p).drop_last() =~= s.drop_last().update(i, p));
        lemma_totals_update(s.drop_last(), i, p);
    }
}

/// One step of the offset accumulation: the next path begins where the
/// previous one's range ends.
pub proof fn lemma_offset_step(paths: Seq<PathConfig>, i: int)
    requires
        0 <= i < paths.len(),
    ensures
        segment_offset(paths, i + 1) == segment_offset(paths, i) + paths[i].path_segments,
        point_offset(paths, i + 1) == point_offset(paths, i) + paths[i].point_len,
{
    assert(paths.take(i + 1).drop_last() =~= paths.take(i));
    assert(paths.take(i + 1).last() == paths[i]);
}

/// Offsets never decrease along the path list.
pub proof fn lemma_offset_monotonic(paths: Seq<PathConfig>, i: int, j: int)
    requires
        0 <= i <= j <= paths.len(),
    ensures
        segment_offset(paths, i) <= segment_offset(paths, j),
        point_offset(paths, i) <= point_offset(paths, j),
    decreases j - i,
{
    if i < j {
        lemma_offset_step(paths, j - 1);
        lemma_offset_monotonic(paths, i, j - 1);
    }
}

/// The packed ranges of two distinct paths never overlap: the earlier
/// path's range ends at or before the later one's begins.  Together with
/// the well-formedness of the world this pins every path to its own
/// untouched span of the shared buffers.
pub proof fn lemma_path_ranges_disjoint(paths: Seq<PathConfig>, i: int, j: int)
    requires
        0 <= i < j < paths.len(),
    ensures
        segment_offset(paths, i) + paths[i].path_segments <= segment_offset(paths, j),
        point_offset(paths, i) + paths[i].point_len <= point_offset(paths, j),
{
    lemma_offset_step(paths, i);
    lemma_offset_monotonic(paths, i + 1, j);
}

/// Every path's range lies inside the packed buffers: the accumulated
/// total over all paths is exactly the buffer length.
pub proof fn lemma_offsets_cover(paths: Seq<PathConfig>)
    ensures
        segment_offset(paths, paths.len() as int) == total_segments(paths),
        point_offset(paths, paths.len() as int) == total_points(paths),
{
    assert(paths.take(paths.len() as int) =~= paths);
}

} // verus!
