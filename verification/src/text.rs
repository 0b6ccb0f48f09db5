//! Text: a font as a table of glyph outlines in fixed point, and the
//! layout that turns a string into one path.
//!
//! Layout walks the characters, advancing a pen: a space advances by a
//! fifth of the text size, a newline starts the next line down, and every
//! other character looks its glyph up, scales it to the text size, shifts
//! it to the pen and appends it.  A missing glyph is tolerated by skipping
//! the character, and so is a glyph whose geometry would leave the range
//! the builder accepts: text layout degrades rather than fails.

use vstd::prelude::*;

verus! {

use crate::path::{Path, PathBuilder, coords_bounded, coords_within, COORD_INPUT};
use crate::world::{World, Bounds, spec_coord_total};
use crate::fixed::GEOM_LIMIT;

/// How far the pen may wander before further glyphs are dropped.
pub const LAYOUT_LIMIT: i64 = 0x10_0000_0000;

/// One glyph: its outline records, bounding box, and horizontal advance.
pub struct Glyph {
    pub points: Vec<i64>,
    pub segments: Vec<u8>,
    pub bounds: Bounds,
    pub advance: i64,
}

/// The glyph's records are packed consistently and its geometry is
/// bounded and at least one step tall.
pub open spec fn glyph_wf(g: Glyph) -> bool {
    &&& g.points@.len() == spec_coord_total(g.segments@, 0, g.segments@.len() as int)
    &&& forall|k: int| 0 <= k < g.segments@.len() ==> #[trigger] g.segments@[k] <= 2
    &&& coords_within(g.points@, (GEOM_LIMIT / 64) as int)
    &&& -(GEOM_LIMIT / 64) <= g.bounds.min_x <= GEOM_LIMIT / 64
    &&& -(GEOM_LIMIT / 64) <= g.bounds.min_y <= GEOM_LIMIT / 64
    &&& -(GEOM_LIMIT / 64) <= g.bounds.max_x <= GEOM_LIMIT / 64
    &&& -(GEOM_LIMIT / 64) <= g.bounds.max_y <= GEOM_LIMIT / 64
    &&& g.bounds.min_x <= g.bounds.max_x
    &&& g.bounds.min_y + 1 <= g.bounds.max_y
    &&& 0 <= g.advance <= GEOM_LIMIT / 64
}

/// A font: glyph outlines and the character table addressing them.
pub struct Font {
    pub glyphs: Vec<Glyph>,
    /// Pairs of a character's code point and the index of its glyph.
    pub cmap: Vec<(u32, usize)>,
}

impl Font {
    /// Every glyph is well formed and every table entry addresses one.
    pub open spec fn wf(&self) -> bool {
        &&& forall|i: int| 0 <= i < self.glyphs@.len() ==> glyph_wf(#[trigger] self.glyphs@[i])
        &&& forall|i: int| 0 <= i < self.cmap@.len()
            ==> (#[trigger] self.cmap@[i]).1 < self.glyphs@.len()
    }

    /// A font with no glyphs.
    pub fn new() -> (f: Font)
        ensures
            f.wf(),
            f.glyphs@.len() == 0,
            f.cmap@.len() == 0,
    {
        Font { glyphs: Vec::new(), cmap: Vec::new() }
    }

    /// Registers one character's glyph.
    pub fn add_glyph(&mut self, code: char, glyph: Glyph)
        requires
            old(self).wf(),
            glyph_wf(glyph),
            old(self).glyphs@.len() < 0x10_0000,
        ensures
            final(self).wf(),
            final(self).glyphs@.len() == old(self).glyphs@.len() + 1,
            final(self).cmap@ == old(self).cmap@.push(
                (code as u32, old(self).glyphs@.len() as usize)),
    {
        let index = self.glyphs.len();
        self.glyphs.push(glyph);
        self.cmap.push((code as u32, index));
    }

    /// The glyph index of a character, by the first table entry carrying
    /// its code point; nothing for an uncovered character.
    pub fn lookup(&self, code: char) -> (r: Option<usize>)
        requires
            self.wf(),
        ensures
            r matches Some(i) ==> i < self.glyphs@.len()
                && exists|j: int| 0 <= j < self.cmap@.len()
                    && (#[trigger] self.cmap@[j]).0 == code as u32 && self.cmap@[j].1 == i,
            r is None ==> forall|j: int| 0 <= j < self.cmap@.len()
                ==> (#[trigger] self.cmap@[j]).0 != code as u32,
    {
        let target = code as u32;
        let n = self.cmap.len();
        let mut k: usize = 0;
        while k < n
            invariant
                self.wf(),
                n == self.cmap@.len(),
                k <= n,
                target == code as u32,
                forall|j: int| 0 <= j < k ==> (#[trigger] self.cmap@[j]).0 != target,
            decreases n - k,
        {
            if self.cmap[k].0 == target {
                return Some(self.cmap[k].1);
            }
            k = k + 1;
        }
        None
    }
}

/// A laid-out string: the handle of the path its outlines became, and
/// which glyphs were placed, in order.
pub struct Text {
    pub path: Path,
    /// The glyph index laid out for each character that was neither
    /// skipped nor dropped.
    pub placed: Vec<usize>,
}

/// The control codes of the placed glyphs, concatenated in placement
/// order.
pub open spec fn spec_placed_codes(glyphs: Seq<Glyph>, placed: Seq<usize>) -> Seq<u8>
    decreases placed.len(),
{
    if placed.len() == 0 {
        Seq::empty()
    } else {
        spec_placed_codes(glyphs, placed.drop_last()) + glyphs[placed.last() as int].segments@
    }
}

/// A copy of a plain buffer.
fn copy_i64s(src: &Vec<i64>) -> (r: Vec<i64>)
    ensures r@ == src@,
{
    let mut out: Vec<i64> = Vec::new();
    let n = src.len();
    let mut k: usize = 0;
    while k < n
        invariant
            n == src@.len(),
            k <= n,
            out@ == src@.take(k as int),
        decreases n - k,
    {
        out.push(src[k]);
        proof {
            assert(src@.take(k as int).push(src@[k as int]) =~= src@.take(k + 1));
        }
        k = k + 1;
    }
    proof {
        assert(src@.take(n as int) =~= src@);
    }
    out
}

/// A copy of a plain buffer.
fn copy_u8s(src: &Vec<u8>) -> (r: Vec<u8>)
    ensures r@ == src@,
{
    let mut out: Vec<u8> = Vec::new();
    let n = src.len();
    let mut k: usize = 0;
    while k < n
        invariant
            n == src@.len(),
            k <= n,
            out@ == src@.take(k as int),
        decreases n - k,
    {
        out.push(src[k]);
        proof {
            assert(src@.take(k as int).push(src@[k as int]) =~= src@.take(k + 1));
        }
        k = k + 1;
    }
    proof {
        assert(src@.take(n as int) =~= src@);
    }
    out
}

impl Text {
    /// Lays the string out as one path in the world and hands back its
    /// handle.  Characters without a glyph, and glyphs whose scaled or
    /// shifted geometry would leave the builder's range, are skipped.
    pub fn new(world: &mut World, content: &Vec<char>, size: i64, font: &Font) -> (t: Text)
        requires
            old(world).wf(),
            font.wf(),
            0 < size <= 0x1000_0000,
            content@.len() <= 4096,
            old(world).paths@.len() < 0x7fff_ffff,
            old(world).controls@.len() + 0x8_0000 <= 0x10_0000,
            old(world).points@.len() + 0x80_0000 <= 0x200_0000,
        ensures
            final(world).wf(),
            t.path.id as int == old(world).paths@.len(),
            final(world).paths@.len() == old(world).paths@.len() + 1,
            final(world).meshes@ == old(world).meshes@,
            final(world).ellipses@ == old(world).ellipses@,
            final(world).age == old(world).age,
            final(world).animating == old(world).animating,
            crate::instance::world_poses_in_range(*old(world))
                ==> crate::instance::world_poses_in_range(*final(world)),
            t.placed@.len() <= content@.len(),
            forall|k: int| 0 <= k < t.placed@.len()
                ==> (#[trigger] t.placed@[k]) < font.glyphs@.len(),
            final(world).controls@ == old(world).controls@
                + spec_placed_codes(font.glyphs@, t.placed@),
            final(world).paths@.last().path_segments as int
                == spec_placed_codes(font.glyphs@, t.placed@).len(),
    {
        let mut placed: Vec<usize> = Vec::new();
        let mut layout = PathBuilder::new();
        let mut offset_x: i64 = 0;
        let mut offset_y: i64 = 0;
        let n = content.len();
        let mut k: usize = 0;
        while k < n
            invariant
                font.wf(),
                n == content@.len(),
                n <= 4096,
                k <= n,
                0 < size <= 0x1000_0000,
                -LAYOUT_LIMIT <= offset_x <= LAYOUT_LIMIT,
                -LAYOUT_LIMIT <= offset_y <= 0,
                layout.wf(),
                !layout.aligned,
                coords_within(layout.temp_points@, COORD_INPUT as int),
                layout.temp_bounds matches Some(b) ==> {
                    &&& -COORD_INPUT <= b.min_x <= COORD_INPUT
                    &&& -COORD_INPUT <= b.min_y <= COORD_INPUT
                    &&& -COORD_INPUT <= b.max_x <= COORD_INPUT
                    &&& -COORD_INPUT <= b.max_y <= COORD_INPUT
                },
                layout.temp_points@.len() <= k * 1024,
                layout.temp_segments@.len() <= k * 128,
                placed@.len() <= k,
                forall|q: int| 0 <= q < placed@.len()
                    ==> (#[trigger] placed@[q]) < font.glyphs@.len(),
                layout.temp_segments@ == spec_placed_codes(font.glyphs@, placed@),
            decreases n - k,
        {
            let c = content[k];
            if c == ' ' {
                if offset_x <= LAYOUT_LIMIT - size {
                    offset_x = offset_x + size / 5;
                }
            } else if c == '\n' {
                offset_x = 0;
                if offset_y >= -(LAYOUT_LIMIT - size) {
                    offset_y = offset_y - size;
                }
            } else {
                if let Some(glyph_index) = font.lookup(c) {
                    let glyph = &font.glyphs[glyph_index];
                    let glyph_height = glyph.bounds.max_y - glyph.bounds.min_y;
                    let fits = size <= 8 * glyph_height
                        && glyph.points.len() <= 1024
                        && glyph.segments.len() <= 128;
                    if fits {
                        let mut outline = PathBuilder {
                            aligned: false,
                            start: None,
                            current: None,
                            temp_points: copy_i64s(&glyph.points),
                            temp_segments: copy_u8s(&glyph.segments),
                            temp_bounds: Some(glyph.bounds),
                        };
                        outline.fit_height(size);
                        let placeable = coords_bounded(&outline.temp_points, COORD_INPUT / 2)
                            && bounds_ok(&outline.temp_bounds, COORD_INPUT / 2);
                        if placeable {
                            outline.shift(offset_x, offset_y);
                            let appendable =
                                coords_bounded(&outline.temp_points, COORD_INPUT)
                                && bounds_ok(&outline.temp_bounds, COORD_INPUT)
                                && layout.temp_points.len() + outline.temp_points.len()
                                    <= 0x40_0000
                                && layout.temp_segments.len() + outline.temp_segments.len()
                                    <= 0x8_0000;
                            if appendable {
                                let ghost placed_pre = placed@;
                                layout.append(&outline);
                                placed.push(glyph_index);
                                proof {
                                    assert(placed@.drop_last() =~= placed_pre);
                                    assert(layout.temp_segments@ =~= spec_placed_codes(
                                        font.glyphs@, placed@));
                                }
                                let advance = outline.width();
                                if advance >= 0 && offset_x <= LAYOUT_LIMIT - advance {
                                    offset_x = offset_x + advance;
                                }
                            }
                        }
                    }
                }
            }
            k = k + 1;
        }
        let id = layout.build(world);
        Text { path: Path { id }, placed }
    }
}

/// Checks at run time that a bounding box, if present, lies within
/// `[-limit, limit]` in every component.
fn bounds_ok(b: &Option<Bounds>, limit: i64) -> (r: bool)
    requires
        0 <= limit,
    ensures
        r == match *b {
            Some(b) => {
                &&& -limit <= b.min_x <= limit
                &&& -limit <= b.min_y <= limit
                &&& -limit <= b.max_x <= limit
                &&& -limit <= b.max_y <= limit
            },
            None => true,
        },
{
    match b {
        Some(b) => {
            b.min_x >= -limit && b.min_x <= limit
                && b.min_y >= -limit && b.min_y <= limit
                && b.max_x >= -limit && b.max_x <= limit
                && b.max_y >= -limit && b.max_y <= limit
        },
        None => true,
    }
}

} // verus!
