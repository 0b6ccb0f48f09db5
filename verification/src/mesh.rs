//! Meshes and the stock cube.

use vstd::prelude::*;

verus! {

use crate::controller::Object3DController;
use crate::fixed::UNIT;
use crate::math::{Vector, Vec2};
use crate::transform::Pose3;
use crate::world::{World, Object3D, Vertex3D};

/// Half a unit, the cube's half extent.
pub const HALF_UNIT: i64 = 32768;

/// A mesh: its rest pose mirror and the controller addressing its world
/// entry.
pub struct Mesh {
    pub scale: Vector,
    pub position: Vector,
    pub rotation: Vector,
    pub world_object: Object3DController,
}

impl Mesh {
    /// Places a mesh with the given geometry, an identity rest pose and
    /// the stock material, and hands back its handle.
    pub fn new(world: &mut World, vertices: Vec<Vertex3D>, indices: Vec<u32>) -> (m: Mesh)
        requires
            old(world).wf(),
            old(world).meshes@.len() < 0x7fff_ffff,
            indices@.len() <= 0xffff_ffff,
        ensures
            final(world).wf(),
            m.world_object.id as int == old(world).meshes@.len(),
            final(world).meshes@.len() == old(world).meshes@.len() + 1,
            final(world).meshes@.last().vertices@ == vertices@,
            final(world).meshes@.last().indices@ == indices@,
            final(world).paths@ == old(world).paths@,
            final(world).ellipses@ == old(world).ellipses@,
            final(world).age == old(world).age,
            final(world).animating == old(world).animating,
            crate::instance::world_poses_in_range(*old(world))
                ==> crate::instance::world_poses_in_range(*final(world)),
    {
        let controller = world.add_mesh(Object3D {
            material: "brick-phong".to_owned(),
            vertices,
            indices,
            scale: Vector { x: UNIT, y: UNIT, z: UNIT },
            position: Vector { x: 0, y: 0, z: 0 },
            rotation: Vector { x: 0, y: 0, z: 0 },
            transform: Pose3 {
                scale: Vector { x: UNIT, y: UNIT, z: UNIT },
                position: Vector { x: 0, y: 0, z: 0 },
                rotation: Vector { x: 0, y: 0, z: 0 },
            },
        });
        Mesh {
            scale: Vector { x: UNIT, y: UNIT, z: UNIT },
            position: Vector { x: 0, y: 0, z: 0 },
            rotation: Vector { x: 0, y: 0, z: 0 },
            world_object: controller,
        }
    }
}

/// One corner of the unit cube.
fn cube_vertex(x: i64, y: i64, z: i64) -> (v: Vertex3D)
    ensures
        v.position == (Vector { x, y, z }),
        v.normal == (Vector { x: 0i64, y: 0i64, z: 0i64 }),
        v.uv == (Vec2 { x: 0i64, y: 0i64 }),
{
    Vertex3D {
        position: Vector { x, y, z },
        normal: Vector { x: 0, y: 0, z: 0 },
        uv: Vec2 { x: 0, y: 0 },
    }
}

/// The stock cube: eight corners half a unit from the origin, twelve
/// triangles.
pub fn cube(world: &mut World) -> (m: Mesh)
    requires
        old(world).wf(),
        old(world).meshes@.len() < 0x7fff_ffff,
    ensures
        final(world).wf(),
        m.world_object.id as int == old(world).meshes@.len(),
        final(world).meshes@.len() == old(world).meshes@.len() + 1,
        final(world).meshes@.last().vertices@.len() == 8,
        final(world).meshes@.last().indices@.len() == 36,
        final(world).meshes@.last().vertices@[0].position == (Vector { x: (-HALF_UNIT) as i64, y: HALF_UNIT, z: (-HALF_UNIT) as i64 }),
        final(world).meshes@.last().vertices@[1].position == (Vector { x: HALF_UNIT, y: HALF_UNIT, z: (-HALF_UNIT) as i64 }),
        final(world).meshes@.last().vertices@[2].position == (Vector { x: HALF_UNIT, y: (-HALF_UNIT) as i64, z: (-HALF_UNIT) as i64 }),
        final(world).meshes@.last().vertices@[3].position == (Vector { x: (-HALF_UNIT) as i64, y: (-HALF_UNIT) as i64, z: (-HALF_UNIT) as i64 }),
        final(world).meshes@.last().vertices@[4].position == (Vector { x: (-HALF_UNIT) as i64, y: HALF_UNIT, z: HALF_UNIT }),
        final(world).meshes@.last().vertices@[5].position == (Vector { x: HALF_UNIT, y: HALF_UNIT, z: HALF_UNIT }),
        final(world).meshes@.last().vertices@[6].position == (Vector { x: HALF_UNIT, y: (-HALF_UNIT) as i64, z: HALF_UNIT }),
        final(world).meshes@.last().vertices@[7].position == (Vector { x: (-HALF_UNIT) as i64, y: (-HALF_UNIT) as i64, z: HALF_UNIT }),
        final(world).paths@ == old(world).paths@,
        final(world).ellipses@ == old(world).ellipses@,
        final(world).age == old(world).age,
        final(world).animating == old(world).animating,
        crate::instance::world_poses_in_range(*old(world))
            ==> crate::instance::world_poses_in_range(*final(world)),
{
    let h = HALF_UNIT;
    let mut vertices: Vec<Vertex3D> = Vec::new();
    vertices.push(cube_vertex(-h, h, -h));
    vertices.push(cube_vertex(h, h, -h));
    vertices.push(cube_vertex(h, -h, -h));
    vertices.push(cube_vertex(-h, -h, -h));
    vertices.push(cube_vertex(-h, h, h));
    vertices.push(cube_vertex(h, h, h));
    vertices.push(cube_vertex(h, -h, h));
    vertices.push(cube_vertex(-h, -h, h));
    let mut indices: Vec<u32> = Vec::new();
    let faces: [u32; 36] = [
        0, 2, 1, 0, 3, 2, 5, 7, 4,
        5, 6, 7, 4, 1, 5, 4, 0, 1,
        6, 3, 7, 6, 2, 3, 7, 0, 4,
        7, 3, 0, 2, 5, 1, 2, 6, 5,
    ];
    let mut i: usize = 0;
    while i < 36
        invariant
            i <= 36,
            indices@.len() == i,
        decreases 36 - i,
    {
        indices.push(faces[i]);
        i = i + 1;
    }
    Mesh::new(world, vertices, indices)
}

} // verus!
