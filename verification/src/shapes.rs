//! Ready-made 2D shapes, built through the path builder and centered on
//! the origin.

use vstd::prelude::*;

verus! {

use crate::fixed::fmul;
use crate::path::{Path, PathBuilder, COORD_INPUT};
use crate::world::{World, Bounds};

/// The fixed-point fraction of the circumradius a pentagon vertex sits at
/// horizontally, for the wider pair.
pub const PENT_WIDE_X: i64 = 31195;

/// The vertical fraction of the wider vertex pair.
pub const PENT_WIDE_Y: i64 = 10158;

/// The horizontal fraction of the lower vertex pair.
pub const PENT_LOW_X: i64 = 19268;

/// The vertical fraction of the lower vertex pair.
pub const PENT_LOW_Y: i64 = 26542;

/// A square of the given side, centered on the origin: its bounds span
/// half the side each way.
pub fn square(world: &mut World, size: i64) -> (p: Path)
    requires
        old(world).wf(),
        old(world).paths@.len() < 0x7fff_ffff,
        old(world).controls@.len() + 4 <= 0x10_0000,
        old(world).points@.len() + 16 <= 0x200_0000,
        0 < size <= COORD_INPUT,
    ensures
        final(world).wf(),
        p.id as int == old(world).paths@.len(),
        final(world).paths@.len() == old(world).paths@.len() + 1,
        final(world).paths@.last().path_segments == 4,
        final(world).paths@.last().bounds == (Bounds {
            min_x: (-(size / 2)) as i64,
            min_y: (-(size / 2)) as i64,
            max_x: (size / 2) as i64,
            max_y: (size / 2) as i64,
        }),
        final(world).meshes@ == old(world).meshes@,
        final(world).ellipses@ == old(world).ellipses@,
        final(world).age == old(world).age,
        final(world).animating == old(world).animating,
        final(world).controls@ == old(world).controls@ + seq![0u8, 0u8, 0u8, 0u8],
        crate::instance::world_poses_in_range(*old(world))
            ==> crate::instance::world_poses_in_range(*final(world)),
    {
        let half = size / 2;
        let mut path = PathBuilder::new();
        path.move_to(-half, half);
        path.line_to(-half, -half);
        path.line_to(half, -half);
        path.line_to(half, half);
        path.close();
        proof {
            assert(path.temp_segments@ =~= seq![0u8, 0u8, 0u8, 0u8]);
        }
        let id = path.build(world);
        Path { id }
    }

/// A triangle of the given size, centered on the origin.
pub fn triangle(world: &mut World, size: i64) -> (p: Path)
    requires
        old(world).wf(),
        old(world).paths@.len() < 0x7fff_ffff,
        old(world).controls@.len() + 3 <= 0x10_0000,
        old(world).points@.len() + 12 <= 0x200_0000,
        0 < size <= COORD_INPUT,
    ensures
        final(world).wf(),
        p.id as int == old(world).paths@.len(),
        final(world).paths@.len() == old(world).paths@.len() + 1,
        final(world).paths@.last().path_segments == 3,
        final(world).paths@.last().bounds == (Bounds {
            min_x: (-(size / 2)) as i64,
            min_y: (-(size / 2)) as i64,
            max_x: (size / 2) as i64,
            max_y: (size / 2) as i64,
        }),
        final(world).meshes@ == old(world).meshes@,
        final(world).ellipses@ == old(world).ellipses@,
        final(world).age == old(world).age,
        final(world).animating == old(world).animating,
        final(world).controls@ == old(world).controls@ + seq![0u8, 0u8, 0u8],
        crate::instance::world_poses_in_range(*old(world))
            ==> crate::instance::world_poses_in_range(*final(world)),
    {
        let half = size / 2;
        let mut path = PathBuilder::new();
        path.move_to(0, half);
        path.line_to(-half, -half);
        path.line_to(half, -half);
        path.close();
        proof {
            assert(path.temp_segments@ =~= seq![0u8, 0u8, 0u8]);
        }
        let id = path.build(world);
        Path { id }
    }

/// A rectangle of the given extent, centered on the origin.
pub fn rectangle(world: &mut World, width: i64, height: i64) -> (p: Path)
    requires
        old(world).wf(),
        old(world).paths@.len() < 0x7fff_ffff,
        old(world).controls@.len() + 4 <= 0x10_0000,
        old(world).points@.len() + 16 <= 0x200_0000,
        0 < width <= COORD_INPUT,
        0 < height <= COORD_INPUT,
    ensures
        final(world).wf(),
        p.id as int == old(world).paths@.len(),
        final(world).paths@.len() == old(world).paths@.len() + 1,
        final(world).paths@.last().path_segments == 4,
        final(world).paths@.last().bounds == (Bounds {
            min_x: (-(width / 2)) as i64,
            min_y: (-(height / 2)) as i64,
            max_x: (width / 2) as i64,
            max_y: (height / 2) as i64,
        }),
        final(world).meshes@ == old(world).meshes@,
        final(world).ellipses@ == old(world).ellipses@,
        final(world).age == old(world).age,
        final(world).animating == old(world).animating,
        final(world).controls@ == old(world).controls@ + seq![0u8, 0u8, 0u8, 0u8],
        crate::instance::world_poses_in_range(*old(world))
            ==> crate::instance::world_poses_in_range(*final(world)),
    {
        let half_width = width / 2;
        let half_height = height / 2;
        let mut path = PathBuilder::new();
        path.move_to(-half_width, half_height);
        path.line_to(-half_width, -half_height);
        path.line_to(half_width, -half_height);
        path.line_to(half_width, half_height);
        path.close();
        proof {
            assert(path.temp_segments@ =~= seq![0u8, 0u8, 0u8, 0u8]);
        }
        let id = path.build(world);
        Path { id }
    }

/// A pentagon inscribed in the given circumradius, centered on the origin.
pub fn pentagon(world: &mut World, radius: i64) -> (p: Path)
    requires
        old(world).wf(),
        old(world).paths@.len() < 0x7fff_ffff,
        old(world).controls@.len() + 5 <= 0x10_0000,
        old(world).points@.len() + 20 <= 0x200_0000,
        0 < radius <= COORD_INPUT,
    ensures
        final(world).wf(),
        p.id as int == old(world).paths@.len(),
        final(world).paths@.len() == old(world).paths@.len() + 1,
        final(world).paths@.last().path_segments == 5,
        final(world).meshes@ == old(world).meshes@,
        final(world).ellipses@ == old(world).ellipses@,
        final(world).age == old(world).age,
        final(world).animating == old(world).animating,
        final(world).controls@ == old(world).controls@ + seq![0u8, 0u8, 0u8, 0u8, 0u8],
        crate::instance::world_poses_in_range(*old(world))
            ==> crate::instance::world_poses_in_range(*final(world)),
    {
        proof {
            crate::fixed::lemma_abs_product(radius as int, PENT_WIDE_X as int,
                COORD_INPUT as int, 32768);
            crate::fixed::lemma_abs_product(radius as int, PENT_WIDE_Y as int,
                COORD_INPUT as int, 32768);
            crate::fixed::lemma_abs_product(radius as int, PENT_LOW_X as int,
                COORD_INPUT as int, 32768);
            crate::fixed::lemma_abs_product(radius as int, PENT_LOW_Y as int,
                COORD_INPUT as int, 32768);
            crate::fixed::lemma_fmul_magnitude(radius as int, PENT_WIDE_X as int,
                (COORD_INPUT as int) * 32768);
            crate::fixed::lemma_fmul_magnitude(radius as int, PENT_WIDE_Y as int,
                (COORD_INPUT as int) * 32768);
            crate::fixed::lemma_fmul_magnitude(radius as int, PENT_LOW_X as int,
                (COORD_INPUT as int) * 32768);
            crate::fixed::lemma_fmul_magnitude(radius as int, PENT_LOW_Y as int,
                (COORD_INPUT as int) * 32768);
        }
        let top = radius / 2;
        let wide_x = fmul(radius, PENT_WIDE_X);
        let wide_y = fmul(radius, PENT_WIDE_Y);
        let low_x = fmul(radius, PENT_LOW_X);
        let low_y = fmul(radius, PENT_LOW_Y);
        let mut path = PathBuilder::new();
        path.move_to(0, top);
        path.line_to(-wide_x, wide_y);
        path.line_to(-low_x, -low_y);
        path.line_to(low_x, -low_y);
        path.line_to(wide_x, wide_y);
        path.close();
        proof {
            assert(path.temp_segments@ =~= seq![0u8, 0u8, 0u8, 0u8, 0u8]);
        }
        let id = path.build(world);
        Path { id }
    }

} // verus!
