//! Building 2D paths: an incremental builder over the packed record
//! layout, and the handle a finished path is driven through.
//!
//! A path's geometry is a run of records, one per segment: a line record
//! holds its start and end point, a quadratic record adds one control
//! point, a cubic record two.  Every record carries its own start point, so
//! a record is readable knowing only where it begins.

use vstd::prelude::*;

verus! {

use crate::animation::{Animation, AnimationUpdate, Interpolation};
use crate::fixed::{GEOM_LIMIT, scalar_in_range};
use crate::graph::FramePlan;
use crate::instance::{App, world_poses_in_range, spec_animated, MAX_DURATION};
use crate::math::Vec2;
use crate::video::video_wf;
use crate::world::{World, Bounds, spec_coord_total};

/// Largest magnitude accepted for an input coordinate, leaving room for
/// later shifts within the geometry range.
pub const COORD_INPUT: i64 = 0x40_0000_0000;

/// Where a built path is anchored relative to its bounding box.
#[derive(Clone, Copy, PartialEq, Eq, Structural, Debug)]
pub enum PathAlignment {
    TopLeft,
    TopRight,
    BottomLeft,
    BottomRight,
    Center,
}

/// An incremental path builder.
pub struct PathBuilder {
    /// Whether the geometry has been anchored already.
    pub aligned: bool,
    /// The first point of the open subpath, if one is open.
    pub start: Option<Vec2>,
    /// The pen: the end point of the last record, or the last move.
    pub current: Option<Vec2>,
    /// The packed coordinates of the records so far.
    pub temp_points: Vec<i64>,
    /// The control codes of the records so far.
    pub temp_segments: Vec<u8>,
    /// The bounding box of the on-curve points so far.
    pub temp_bounds: Option<Bounds>,
}

/// Every value of the sequence within `[-limit, limit]`.
pub open spec fn coords_within(pts: Seq<i64>, limit: int) -> bool {
    forall|k: int| 0 <= k < pts.len() ==> -limit <= #[trigger] pts[k] <= limit
}

/// The bounding box expanded by one on-curve point: a smaller coordinate
/// lowers the minimum, otherwise a larger one raises the maximum.
pub open spec fn spec_expand(b: Option<Bounds>, x: i64, y: i64) -> Option<Bounds> {
    match b {
        None => Some(Bounds { min_x: x, min_y: y, max_x: x, max_y: y }),
        Some(b) => Some(Bounds {
            min_x: if x < b.min_x { x } else { b.min_x },
            max_x: if x < b.min_x { b.max_x } else if x > b.max_x { x } else { b.max_x },
            min_y: if y < b.min_y { y } else { b.min_y },
            max_y: if y < b.min_y { b.max_y } else if y > b.max_y { y } else { b.max_y },
        }),
    }
}

impl PathBuilder {
    /// The records are packed consistently, codes are known kinds, a pen
    /// exists whenever a subpath is open, and all geometry is in range.
    pub open spec fn wf(&self) -> bool {
        &&& self.temp_points@.len() == spec_coord_total(
            self.temp_segments@, 0, self.temp_segments@.len() as int)
        &&& forall|k: int| 0 <= k < self.temp_segments@.len()
            ==> #[trigger] self.temp_segments@[k] <= 2
        &&& (self.start is Some ==> self.current is Some)
        &&& coords_within(self.temp_points@, GEOM_LIMIT as int)
        &&& (self.current matches Some(c)
            ==> -GEOM_LIMIT <= c.x <= GEOM_LIMIT && -GEOM_LIMIT <= c.y <= GEOM_LIMIT)
        &&& (self.start matches Some(c)
            ==> -GEOM_LIMIT <= c.x <= GEOM_LIMIT && -GEOM_LIMIT <= c.y <= GEOM_LIMIT)
        &&& (self.temp_bounds matches Some(b) ==> {
            &&& -GEOM_LIMIT <= b.min_x <= GEOM_LIMIT
            &&& -GEOM_LIMIT <= b.min_y <= GEOM_LIMIT
            &&& -GEOM_LIMIT <= b.max_x <= GEOM_LIMIT
            &&& -GEOM_LIMIT <= b.max_y <= GEOM_LIMIT
            &&& b.min_x <= b.max_x &&& b.min_y <= b.max_y
        })
    }

    /// An empty builder.
    pub fn new() -> (b: PathBuilder)
        ensures
            b.wf(),
            !b.aligned,
            b.start is None,
            b.current is None,
            b.temp_points@.len() == 0,
            b.temp_segments@.len() == 0,
            b.temp_bounds is None,
    {
        PathBuilder {
            aligned: false,
            start: None,
            current: None,
            temp_points: Vec::new(),
            temp_segments: Vec::new(),
            temp_bounds: None,
        }
    }

    /// Moves the pen without drawing; the first move opens the subpath.
    pub fn move_to(&mut self, x: i64, y: i64)
        requires
            old(self).wf(),
            -COORD_INPUT <= x <= COORD_INPUT,
            -COORD_INPUT <= y <= COORD_INPUT,
        ensures
            final(self).wf(),
            final(self).current == Some(Vec2 { x, y }),
            final(self).start == (if old(self).start is None { Some(Vec2 { x, y }) } else { old(self).start }),
            final(self).temp_points == old(self).temp_points,
            final(self).temp_segments == old(self).temp_segments,
            final(self).temp_bounds == spec_expand(old(self).temp_bounds, x, y),
            final(self).aligned == old(self).aligned,
    {
        self.update_bounds(x, y);
        self.current = Some(Vec2 { x, y });
        if self.start.is_none() {
            self.start = Some(Vec2 { x, y });
        }
    }

    /// Draws a straight segment from the pen to `(x, y)`: one line record.
    pub fn line_to(&mut self, x: i64, y: i64)
        requires
            old(self).wf(),
            old(self).current is Some,
            -COORD_INPUT <= x <= COORD_INPUT,
            -COORD_INPUT <= y <= COORD_INPUT,
        ensures
            final(self).wf(),
            final(self).temp_points@ == old(self).temp_points@
                + seq![old(self).current->0.x, old(self).current->0.y, x, y],
            final(self).temp_segments@ == old(self).temp_segments@.push(0u8),
            final(self).current == Some(Vec2 { x, y }),
            final(self).start == old(self).start,
            final(self).temp_bounds == spec_expand(old(self).temp_bounds, x, y),
            final(self).aligned == old(self).aligned,
    {
        let c = self.current.unwrap();
        self.temp_points.push(c.x);
        self.temp_points.push(c.y);
        self.temp_points.push(x);
        self.temp_points.push(y);
        self.temp_segments.push(0);
        self.update_bounds(x, y);
        self.current = Some(Vec2 { x, y });
        proof {
            lemma_record_pack(old(self).temp_segments@, 0u8);
            assert(final(self).temp_points@ =~= old(self).temp_points@
                + seq![old(self).current->0.x, old(self).current->0.y, x, y]);
        }
    }

    /// Draws a horizontal segment to `x` at the pen's height.
    pub fn h_line_to(&mut self, x: i64)
        requires
            old(self).wf(),
            old(self).current is Some,
            -COORD_INPUT <= x <= COORD_INPUT,
            -COORD_INPUT <= old(self).current->0.y <= COORD_INPUT,
        ensures
            final(self).wf(),
            final(self).temp_points@ == old(self).temp_points@
                + seq![old(self).current->0.x, old(self).current->0.y, x, old(self).current->0.y],
            final(self).temp_segments@ == old(self).temp_segments@.push(0u8),
            final(self).current == Some(Vec2 { x, y: old(self).current->0.y }),
            final(self).start == old(self).start,
            final(self).temp_bounds == spec_expand(old(self).temp_bounds, x, old(self).current->0.y),
            final(self).aligned == old(self).aligned,
    {
        let y = self.current.unwrap().y;
        self.line_to(x, y);
    }

    /// Draws a vertical segment to `y` at the pen's horizontal position.
    pub fn v_line_to(&mut self, y: i64)
        requires
            old(self).wf(),
            old(self).current is Some,
            -COORD_INPUT <= y <= COORD_INPUT,
            -COORD_INPUT <= old(self).current->0.x <= COORD_INPUT,
        ensures
            final(self).wf(),
            final(self).temp_points@ == old(self).temp_points@
                + seq![old(self).current->0.x, old(self).current->0.y, old(self).current->0.x, y],
            final(self).temp_segments@ == old(self).temp_segments@.push(0u8),
            final(self).current == Some(Vec2 { x: old(self).current->0.x, y }),
            final(self).start == old(self).start,
            final(self).temp_bounds == spec_expand(old(self).temp_bounds, old(self).current->0.x, y),
            final(self).aligned == old(self).aligned,
    {
        let x = self.current.unwrap().x;
        self.line_to(x, y);
    }

    /// Draws a quadratic curve to `(x, y)` with control point `(cx, cy)`:
    /// one quadratic record.  Only the end point enters the bounds, as the
    /// curve never strays past its on-curve hull ends in this layout.
    pub fn quad_to(&mut self, x: i64, y: i64, cx: i64, cy: i64)
        requires
            old(self).wf(),
            old(self).current is Some,
            -COORD_INPUT <= x <= COORD_INPUT,
            -COORD_INPUT <= y <= COORD_INPUT,
            -COORD_INPUT <= cx <= COORD_INPUT,
            -COORD_INPUT <= cy <= COORD_INPUT,
        ensures
            final(self).wf(),
            final(self).temp_points@ == old(self).temp_points@
                + seq![old(self).current->0.x, old(self).current->0.y, cx, cy, x, y],
            final(self).temp_segments@ == old(self).temp_segments@.push(1u8),
            final(self).current == Some(Vec2 { x, y }),
            final(self).start == old(self).start,
            final(self).temp_bounds == spec_expand(old(self).temp_bounds, x, y),
            final(self).aligned == old(self).aligned,
    {
        let c = self.current.unwrap();
        self.temp_points.push(c.x);
        self.temp_points.push(c.y);
        self.temp_points.push(cx);
        self.temp_points.push(cy);
        self.temp_points.push(x);
        self.temp_points.push(y);
        self.temp_segments.push(1);
        self.update_bounds(x, y);
        self.current = Some(Vec2 { x, y });
        proof {
            lemma_record_pack(old(self).temp_segments@, 1u8);
            assert(final(self).temp_points@ =~= old(self).temp_points@
                + seq![old(self).current->0.x, old(self).current->0.y, cx, cy, x, y]);
        }
    }

    /// Draws a cubic curve to `(x, y)` with control points `(cx1, cy1)`
    /// and `(cx2, cy2)`: one cubic record.
    pub fn cubic_to(&mut self, x: i64, y: i64, cx1: i64, cy1: i64, cx2: i64, cy2: i64)
        requires
            old(self).wf(),
            old(self).current is Some,
            -COORD_INPUT <= x <= COORD_INPUT,
            -COORD_INPUT <= y <= COORD_INPUT,
            -COORD_INPUT <= cx1 <= COORD_INPUT,
            -COORD_INPUT <= cy1 <= COORD_INPUT,
            -COORD_INPUT <= cx2 <= COORD_INPUT,
            -COORD_INPUT <= cy2 <= COORD_INPUT,
        ensures
            final(self).wf(),
            final(self).temp_points@ == old(self).temp_points@
                + seq![old(self).current->0.x, old(self).current->0.y, cx1, cy1, cx2, cy2, x, y],
            final(self).temp_segments@ == old(self).temp_segments@.push(2u8),
            final(self).current == Some(Vec2 { x, y }),
            final(self).start == old(self).start,
            final(self).temp_bounds == spec_expand(old(self).temp_bounds, x, y),
            final(self).aligned == old(self).aligned,
    {
        let c = self.current.unwrap();
        self.temp_points.push(c.x);
        self.temp_points.push(c.y);
        self.temp_points.push(cx1);
        self.temp_points.push(cy1);
        self.temp_points.push(cx2);
        self.temp_points.push(cy2);
        self.temp_points.push(x);
        self.temp_points.push(y);
        self.temp_segments.push(2);
        self.update_bounds(x, y);
        self.current = Some(Vec2 { x, y });
        proof {
            lemma_record_pack(old(self).temp_segments@, 2u8);
            assert(final(self).temp_points@ =~= old(self).temp_points@
                + seq![old(self).current->0.x, old(self).current->0.y, cx1, cy1, cx2, cy2, x, y]);
        }
    }

    /// Closes the open subpath with a straight segment back to its first
    /// point, always appending the closing record, and forgets the start.
    pub fn close(&mut self)
        requires
            old(self).wf(),
            old(self).start matches Some(s)
                ==> -COORD_INPUT <= s.x <= COORD_INPUT && -COORD_INPUT <= s.y <= COORD_INPUT,
        ensures
            final(self).wf(),
            final(self).start is None,
            final(self).aligned == old(self).aligned,
            old(self).start matches Some(s) ==> {
                &&& final(self).temp_points@ == old(self).temp_points@
                    + seq![old(self).current->0.x, old(self).current->0.y, s.x, s.y]
                &&& final(self).temp_segments@ == old(self).temp_segments@.push(0u8)
                &&& final(self).current == Some(s)
                &&& final(self).temp_bounds == spec_expand(old(self).temp_bounds, s.x, s.y)
            },
            old(self).start is None ==> {
                &&& final(self).temp_points == old(self).temp_points
                &&& final(self).temp_segments == old(self).temp_segments
                &&& final(self).current == old(self).current
                &&& final(self).temp_bounds == old(self).temp_bounds
            },
    {
        if let Some(s) = self.start {
            self.line_to(s.x, s.y);
        }
        self.start = None;
    }

    /// The width of the bounding box, or zero without one.
    pub fn width(&self) -> (r: i64)
        requires self.wf(),
        ensures
            r as int == match self.temp_bounds {
                Some(b) => b.max_x - b.min_x,
                None => 0,
            },
    {
        match &self.temp_bounds {
            Some(b) => b.max_x - b.min_x,
            None => 0,
        }
    }

    /// The height of the bounding box, or zero without one.
    pub fn height(&self) -> (r: i64)
        requires self.wf(),
        ensures
            r as int == match self.temp_bounds {
                Some(b) => b.max_y - b.min_y,
                None => 0,
            },
    {
        match &self.temp_bounds {
            Some(b) => b.max_y - b.min_y,
            None => 0,
        }
    }

    /// Replaces the bounding box outright.
    pub fn set_bounds(&mut self, bounds: Bounds)
        requires
            old(self).wf(),
            -GEOM_LIMIT <= bounds.min_x <= GEOM_LIMIT,
            -GEOM_LIMIT <= bounds.min_y <= GEOM_LIMIT,
            -GEOM_LIMIT <= bounds.max_x <= GEOM_LIMIT,
            -GEOM_LIMIT <= bounds.max_y <= GEOM_LIMIT,
            bounds.min_x <= bounds.max_x,
            bounds.min_y <= bounds.max_y,
        ensures
            final(self).wf(),
            *final(self) == (PathBuilder { temp_bounds: Some(bounds), ..*old(self) }),
    {
        self.temp_bounds = Some(bounds);
    }

    /// Expands the bounding box by one on-curve point.
    fn update_bounds(&mut self, x: i64, y: i64)
        requires
            old(self).temp_bounds matches Some(b) ==> {
                &&& -GEOM_LIMIT <= b.min_x <= GEOM_LIMIT
                &&& -GEOM_LIMIT <= b.min_y <= GEOM_LIMIT
                &&& -GEOM_LIMIT <= b.max_x <= GEOM_LIMIT
                &&& -GEOM_LIMIT <= b.max_y <= GEOM_LIMIT
                &&& b.min_x <= b.max_x &&& b.min_y <= b.max_y
            },
            -COORD_INPUT <= x <= COORD_INPUT,
            -COORD_INPUT <= y <= COORD_INPUT,
        ensures
            *final(self) == (PathBuilder {
                temp_bounds: spec_expand(old(self).temp_bounds, x, y),
                ..*old(self)
            }),
            final(self).temp_bounds matches Some(b) ==> {
                &&& -GEOM_LIMIT <= b.min_x <= GEOM_LIMIT
                &&& -GEOM_LIMIT <= b.min_y <= GEOM_LIMIT
                &&& -GEOM_LIMIT <= b.max_x <= GEOM_LIMIT
                &&& -GEOM_LIMIT <= b.max_y <= GEOM_LIMIT
                &&& b.min_x <= b.max_x &&& b.min_y <= b.max_y
            },
    {
        match &mut self.temp_bounds {
            Some(b) => {
                if x < b.min_x { b.min_x = x; } else if x > b.max_x { b.max_x = x; }
                if y < b.min_y { b.min_y = y; } else if y > b.max_y { b.max_y = y; }
            },
            None => {
                self.temp_bounds = Some(Bounds { min_x: x, min_y: y, max_x: x, max_y: y });
            },
        }
    }

    /// Translates every coordinate and the bounding box by `(dx, dy)`.
    pub fn shift(&mut self, dx: i64, dy: i64)
        requires
            old(self).wf(),
            -COORD_INPUT <= dx <= COORD_INPUT,
            -COORD_INPUT <= dy <= COORD_INPUT,
            coords_within(old(self).temp_points@, (GEOM_LIMIT - COORD_INPUT) as int),
            old(self).temp_bounds matches Some(b) ==> {
                &&& -(GEOM_LIMIT - COORD_INPUT) <= b.min_x <= GEOM_LIMIT - COORD_INPUT
                &&& -(GEOM_LIMIT - COORD_INPUT) <= b.min_y <= GEOM_LIMIT - COORD_INPUT
                &&& -(GEOM_LIMIT - COORD_INPUT) <= b.max_x <= GEOM_LIMIT - COORD_INPUT
                &&& -(GEOM_LIMIT - COORD_INPUT) <= b.max_y <= GEOM_LIMIT - COORD_INPUT
            },
        ensures
            final(self).wf(),
            final(self).temp_points@.len() == old(self).temp_points@.len(),
            forall|k: int| 0 <= k < old(self).temp_points@.len()
                ==> #[trigger] final(self).temp_points@[k]
                    == old(self).temp_points@[k] + (if k % 2 == 0 { dx as int } else { dy as int }),
            final(self).temp_segments == old(self).temp_segments,
            final(self).start == old(self).start,
            final(self).current == old(self).current,
            final(self).aligned == old(self).aligned,
            final(self).temp_bounds == match old(self).temp_bounds {
                Some(b) => Some(Bounds {
                    min_x: (b.min_x + dx) as i64,
                    min_y: (b.min_y + dy) as i64,
                    max_x: (b.max_x + dx) as i64,
                    max_y: (b.max_y + dy) as i64,
                }),
                None => None::<Bounds>,
            },
    {
        let n = self.temp_points.len();
        let mut k: usize = 0;
        while k < n
            invariant
                n == self.temp_points@.len(),
                n == old(self).temp_points@.len(),
                k <= n,
                -COORD_INPUT <= dx <= COORD_INPUT,
                -COORD_INPUT <= dy <= COORD_INPUT,
                coords_within(old(self).temp_points@, (GEOM_LIMIT - COORD_INPUT) as int),
                forall|q: int| 0 <= q < k
                    ==> #[trigger] self.temp_points@[q]
                        == old(self).temp_points@[q] + (if q % 2 == 0 { dx as int } else { dy as int }),
                forall|q: int| k <= q < n
                    ==> #[trigger] self.temp_points@[q] == old(self).temp_points@[q],
                self.temp_segments == old(self).temp_segments,
                self.start == old(self).start,
                self.current == old(self).current,
                self.aligned == old(self).aligned,
                self.temp_bounds == old(self).temp_bounds,
            decreases n - k,
        {
            let d = if k % 2 == 0 { dx } else { dy };
            let v = self.temp_points[k];
            self.temp_points.set(k, v + d);
            k = k + 1;
        }
        match &mut self.temp_bounds {
            Some(b) => {
                b.min_x = b.min_x + dx;
                b.min_y = b.min_y + dy;
                b.max_x = b.max_x + dx;
                b.max_y = b.max_y + dy;
            },
            None => {},
        }
    }

    /// Scales the geometry uniformly so the bounding box becomes `height`
    /// tall.  The pen and the subpath start are forgotten, since they no
    /// longer sit on the scaled outline; the enlargement is capped at
    /// sixty-four to keep every product exact.
    pub fn fit_height(&mut self, height: i64)
        requires
            old(self).wf(),
            old(self).temp_bounds matches Some(b) ==> {
                &&& b.max_y - b.min_y >= 1
                &&& 0 < height <= (b.max_y - b.min_y) * 64
                &&& -(GEOM_LIMIT / 64) <= b.min_x <= GEOM_LIMIT / 64
                &&& -(GEOM_LIMIT / 64) <= b.min_y <= GEOM_LIMIT / 64
                &&& -(GEOM_LIMIT / 64) <= b.max_x <= GEOM_LIMIT / 64
                &&& -(GEOM_LIMIT / 64) <= b.max_y <= GEOM_LIMIT / 64
            },
            coords_within(old(self).temp_points@, (GEOM_LIMIT / 64) as int),
        ensures
            final(self).wf(),
            final(self).temp_segments == old(self).temp_segments,
            final(self).aligned == old(self).aligned,
            final(self).start is None,
            final(self).current is None,
            old(self).temp_bounds is None ==> {
                &&& final(self).temp_points == old(self).temp_points
                &&& final(self).temp_bounds == old(self).temp_bounds
            },
            old(self).temp_bounds matches Some(b) ==> {
                let scale = height * (crate::fixed::UNIT as int) / (b.max_y - b.min_y);
                &&& final(self).temp_points@.len() == old(self).temp_points@.len()
                &&& forall|k: int| 0 <= k < old(self).temp_points@.len()
                    ==> #[trigger] final(self).temp_points@[k] as int
                        == crate::fixed::spec_fmul(old(self).temp_points@[k] as int, scale)
                &&& final(self).temp_bounds == Some(Bounds {
                    min_x: crate::fixed::spec_fmul(b.min_x as int, scale) as i64,
                    min_y: crate::fixed::spec_fmul(b.min_y as int, scale) as i64,
                    max_x: crate::fixed::spec_fmul(b.max_x as int, scale) as i64,
                    max_y: crate::fixed::spec_fmul(b.max_y as int, scale) as i64,
                })
            },
    {
        self.start = None;
        self.current = None;
        let bounds = match &self.temp_bounds {
            Some(b) => Some(*b),
            None => None,
        };
        if let Some(b) = bounds {
            let den = b.max_y - b.min_y;
            proof {
                assert(0 < height * (crate::fixed::UNIT as int)
                    && height * (crate::fixed::UNIT as int)
                        <= (64 * (crate::fixed::UNIT as int)) * den)
                    by (nonlinear_arith)
                    requires 0 < height <= den * 64 && den >= 1,
                ;
                assert(0 * den == 0) by (nonlinear_arith);
                crate::fixed::lemma_div_between(
                    height * (crate::fixed::UNIT as int), 0,
                    64 * (crate::fixed::UNIT as int), den as int);
            }
            let scale = height * crate::fixed::UNIT / den;
            let n = self.temp_points.len();
            let mut k: usize = 0;
            while k < n
                invariant
                    n == self.temp_points@.len(),
                    n == old(self).temp_points@.len(),
                    k <= n,
                    0 <= scale <= 64 * crate::fixed::UNIT,
                    coords_within(old(self).temp_points@, (GEOM_LIMIT / 64) as int),
                    forall|q: int| 0 <= q < k
                        ==> #[trigger] self.temp_points@[q] as int
                            == crate::fixed::spec_fmul(old(self).temp_points@[q] as int, scale as int),
                    forall|q: int| 0 <= q < k
                        ==> -GEOM_LIMIT <= #[trigger] self.temp_points@[q] <= GEOM_LIMIT,
                    forall|q: int| k <= q < n
                        ==> #[trigger] self.temp_points@[q] == old(self).temp_points@[q],
                    self.temp_segments == old(self).temp_segments,
                    self.aligned == old(self).aligned,
                    self.temp_bounds == old(self).temp_bounds,
                    self.start is None,
                    self.current is None,
                decreases n - k,
            {
                let v = self.temp_points[k];
                proof {
                    assert(0x4_0000_0000 * 0x40_0000 == 0x100_0000_0000_0000)
                        by (nonlinear_arith);
                    crate::fixed::lemma_abs_product(v as int, scale as int,
                        0x4_0000_0000, 0x40_0000);
                    crate::fixed::lemma_fmul_magnitude(v as int, scale as int,
                        0x100_0000_0000_0000);
                }
                let scaled = crate::fixed::fmul(v, scale);
                self.temp_points.set(k, scaled);
                k = k + 1;
            }
            proof {
                scale_bounds_in_range(b, scale as int);
            }
            self.temp_bounds = Some(Bounds {
                min_x: scale_bound_value(b.min_x, scale),
                min_y: scale_bound_value(b.min_y, scale),
                max_x: scale_bound_value(b.max_x, scale),
                max_y: scale_bound_value(b.max_y, scale),
            });
        }
    }

    /// Anchors the geometry: shifts it so the bounding box sits at the
    /// chosen corner, or centered on the origin.  Without bounds nothing
    /// moves.
    pub fn align(&mut self, alignment: PathAlignment)
        requires
            old(self).wf(),
            coords_within(old(self).temp_points@, (GEOM_LIMIT - COORD_INPUT) as int),
            old(self).temp_bounds matches Some(b) ==> {
                &&& -COORD_INPUT <= b.min_x <= COORD_INPUT
                &&& -COORD_INPUT <= b.min_y <= COORD_INPUT
                &&& -COORD_INPUT <= b.max_x <= COORD_INPUT
                &&& -COORD_INPUT <= b.max_y <= COORD_INPUT
            },
        ensures
            final(self).wf(),
            final(self).aligned,
            final(self).temp_segments == old(self).temp_segments,
            old(self).temp_bounds is None ==> {
                &&& final(self).temp_points == old(self).temp_points
                &&& final(self).temp_bounds == old(self).temp_bounds
            },
            old(self).temp_bounds matches Some(b) ==> alignment == PathAlignment::Center ==> {
                let cx = (b.min_x + b.max_x) / 2;
                let cy = (b.min_y + b.max_y) / 2;
                &&& final(self).temp_bounds == Some(Bounds {
                    min_x: (b.min_x - cx) as i64,
                    min_y: (b.min_y - cy) as i64,
                    max_x: (b.max_x - cx) as i64,
                    max_y: (b.max_y - cy) as i64,
                })
                &&& final(self).temp_points@.len() == old(self).temp_points@.len()
                &&& forall|k: int| 0 <= k < old(self).temp_points@.len()
                    ==> #[trigger] final(self).temp_points@[k]
                        == old(self).temp_points@[k] - (if k % 2 == 0 { cx } else { cy })
            },
    {
        self.aligned = true;
        let bounds = match &self.temp_bounds {
            Some(b) => Some(*b),
            None => None,
        };
        if let Some(b) = bounds {
            match alignment {
                PathAlignment::BottomLeft => self.shift(-b.min_x, -b.min_y),
                PathAlignment::TopLeft => self.shift(-b.min_x, -b.max_y),
                PathAlignment::BottomRight => self.shift(-b.max_x, -b.min_y),
                PathAlignment::TopRight => self.shift(-b.max_x, -b.max_y),
                PathAlignment::Center => {
                    let cx = (b.min_x + b.max_x).checked_div_euclid(2).unwrap();
                    let cy = (b.min_y + b.max_y).checked_div_euclid(2).unwrap();
                    self.shift(-cx, -cy);
                },
            }
        }
    }

    /// Appends another builder's records and merges its bounds.
    pub fn append(&mut self, other: &PathBuilder)
        requires
            old(self).wf(),
            other.wf(),
            old(self).temp_points@.len() + other.temp_points@.len() <= 0x100_0000,
            old(self).temp_segments@.len() + other.temp_segments@.len() <= 0x10_0000,
            other.temp_bounds matches Some(b) ==> {
                &&& -COORD_INPUT <= b.min_x <= COORD_INPUT
                &&& -COORD_INPUT <= b.min_y <= COORD_INPUT
                &&& -COORD_INPUT <= b.max_x <= COORD_INPUT
                &&& -COORD_INPUT <= b.max_y <= COORD_INPUT
            },
        ensures
            final(self).wf(),
            final(self).temp_points@ == old(self).temp_points@ + other.temp_points@,
            final(self).temp_segments@ == old(self).temp_segments@ + other.temp_segments@,
            final(self).start == old(self).start,
            final(self).current == old(self).current,
            final(self).aligned == old(self).aligned,
            final(self).temp_bounds == match other.temp_bounds {
                Some(b) => spec_expand(
                    spec_expand(old(self).temp_bounds, b.min_x, b.min_y), b.max_x, b.max_y),
                None => old(self).temp_bounds,
            },
    {
        let ghost pre_bounds = self.temp_bounds;
        if let Some(b) = &other.temp_bounds {
            let bmin_x = b.min_x;
            let bmin_y = b.min_y;
            let bmax_x = b.max_x;
            let bmax_y = b.max_y;
            self.update_bounds(bmin_x, bmin_y);
            self.update_bounds(bmax_x, bmax_y);
        }
        let mut k: usize = 0;
        let n = other.temp_points.len();
        while k < n
            invariant
                n == other.temp_points@.len(),
                k <= n,
                self.temp_points@ == old(self).temp_points@ + other.temp_points@.take(k as int),
                self.temp_segments == old(self).temp_segments,
                self.start == old(self).start,
                self.current == old(self).current,
                self.aligned == old(self).aligned,
                old(self).temp_points@.len() + n <= 0x100_0000,
                coords_within(old(self).temp_points@, GEOM_LIMIT as int),
                coords_within(other.temp_points@, GEOM_LIMIT as int),
                self.temp_bounds == match other.temp_bounds {
                    Some(b) => spec_expand(
                        spec_expand(pre_bounds, b.min_x, b.min_y), b.max_x, b.max_y),
                    None => pre_bounds,
                },
            decreases n - k,
        {
            self.temp_points.push(other.temp_points[k]);
            proof {
                assert(other.temp_points@.take(k as int).push(other.temp_points@[k as int])
                    =~= other.temp_points@.take(k + 1));
            }
            k = k + 1;
        }
        proof {
            assert(other.temp_points@.take(n as int) =~= other.temp_points@);
        }
        let mut j: usize = 0;
        let m = other.temp_segments.len();
        while j < m
            invariant
                m == other.temp_segments@.len(),
                j <= m,
                self.temp_points@ == old(self).temp_points@ + other.temp_points@,
                self.temp_segments@ == old(self).temp_segments@ + other.temp_segments@.take(j as int),
                self.start == old(self).start,
                self.current == old(self).current,
                self.aligned == old(self).aligned,
                old(self).temp_segments@.len() + m <= 0x10_0000,
                self.temp_bounds == match other.temp_bounds {
                    Some(b) => spec_expand(
                        spec_expand(pre_bounds, b.min_x, b.min_y), b.max_x, b.max_y),
                    None => pre_bounds,
                },
            decreases m - j,
        {
            self.temp_segments.push(other.temp_segments[j]);
            proof {
                assert(other.temp_segments@.take(j as int).push(other.temp_segments@[j as int])
                    =~= other.temp_segments@.take(j + 1));
            }
            j = j + 1;
        }
        proof {
            assert(other.temp_segments@.take(m as int) =~= other.temp_segments@);
            crate::world::lemma_totals_split(
                self.temp_segments@, 0,
                old(self).temp_segments@.len() as int, other.temp_segments@.len() as int);
            crate::world::lemma_totals_shift(
                self.temp_segments@, old(self).temp_segments@, 0,
                old(self).temp_segments@.len() as int);
            crate::world::lemma_totals_shift(
                self.temp_segments@, other.temp_segments@,
                old(self).temp_segments@.len() as int, other.temp_segments@.len() as int);
        }
    }

    /// Finishes the path: anchors it (centered, unless it was aligned
    /// already), hands its records to the world's packed buffers, and
    /// resets the builder for reuse.  Returns the new path's id.
    pub fn build(&mut self, world: &mut World) -> (id: i32)
        requires
            old(self).wf(),
            old(world).wf(),
            coords_within(old(self).temp_points@, (GEOM_LIMIT - COORD_INPUT) as int),
            old(self).temp_bounds matches Some(b) ==> {
                &&& -COORD_INPUT <= b.min_x <= COORD_INPUT
                &&& -COORD_INPUT <= b.min_y <= COORD_INPUT
                &&& -COORD_INPUT <= b.max_x <= COORD_INPUT
                &&& -COORD_INPUT <= b.max_y <= COORD_INPUT
            },
            old(world).paths@.len() < 0x7fff_ffff,
            old(world).controls@.len() + old(self).temp_segments@.len() <= 0x10_0000,
            old(world).points@.len() + old(self).temp_points@.len() <= 0x200_0000,
        ensures
            final(world).wf(),
            final(self).wf(),
            id as int == old(world).paths@.len(),
            final(world).paths@.len() == old(world).paths@.len() + 1,
            final(world).controls@.len()
                == old(world).controls@.len() + old(self).temp_segments@.len(),
            final(world).points@.len()
                == old(world).points@.len() + old(self).temp_points@.len(),
            final(world).controls@ == old(world).controls@ + old(self).temp_segments@,
            final(world).paths@.last().path_segments == old(self).temp_segments@.len(),
            final(world).meshes@ == old(world).meshes@,
            final(world).ellipses@ == old(world).ellipses@,
            final(world).age == old(world).age,
            final(world).animating == old(world).animating,
            final(self).temp_points@.len() == 0,
            final(self).temp_segments@.len() == 0,
            final(self).temp_bounds is None,
            !final(self).aligned,
            world_poses_in_range(*old(world)) ==> world_poses_in_range(*final(world)),
            (old(self).aligned || old(self).temp_bounds is None)
                ==> final(world).paths@.last().bounds == match old(self).temp_bounds {
                    Some(b) => b,
                    None => Bounds { min_x: 0i64, min_y: 0i64, max_x: 0i64, max_y: 0i64 },
                },
            old(self).temp_bounds matches Some(b) ==> !old(self).aligned
                ==> final(world).paths@.last().bounds == (Bounds {
                    min_x: (b.min_x - (b.min_x + b.max_x) / 2) as i64,
                    min_y: (b.min_y - (b.min_y + b.max_y) / 2) as i64,
                    max_x: (b.max_x - (b.min_x + b.max_x) / 2) as i64,
                    max_y: (b.max_y - (b.min_y + b.max_y) / 2) as i64,
                }),
    {
        if !self.aligned {
            self.align(PathAlignment::Center);
        }
        let bounds = match &self.temp_bounds {
            Some(b) => *b,
            None => Bounds { min_x: 0, min_y: 0, max_x: 0, max_y: 0 },
        };
        let segments = self.temp_segments.len();
        let id = world.add_path(&self.temp_points, &self.temp_segments, bounds, segments);
        self.temp_points = Vec::new();
        self.temp_segments = Vec::new();
        self.start = None;
        self.current = None;
        self.temp_bounds = None;
        self.aligned = false;
        id
    }
}

/// Checks at run time that every value of the buffer lies within
/// `[-limit, limit]`.
pub fn coords_bounded(pts: &Vec<i64>, limit: i64) -> (r: bool)
    requires
        0 <= limit,
    ensures
        r == coords_within(pts@, limit as int),
{
    let n = pts.len();
    let mut k: usize = 0;
    while k < n
        invariant
            n == pts@.len(),
            k <= n,
            0 <= limit,
            forall|q: int| 0 <= q < k ==> -limit <= #[trigger] pts@[q] <= limit,
        decreases n - k,
    {
        let v = pts[k];
        if v < -limit || v > limit {
            return false;
        }
        k = k + 1;
    }
    true
}

/// One bounding-box component weighted by a nonnegative scale.
fn scale_bound_value(v: i64, scale: i64) -> (r: i64)
    requires
        -(GEOM_LIMIT / 64) <= v <= GEOM_LIMIT / 64,
        0 <= scale <= 64 * 65536,
    ensures
        r as int == crate::fixed::spec_fmul(v as int, scale as int),
        -GEOM_LIMIT <= r <= GEOM_LIMIT,
{
    proof {
        assert(0x4_0000_0000 * 0x40_0000 == 0x100_0000_0000_0000) by (nonlinear_arith);
        crate::fixed::lemma_abs_product(v as int, scale as int, 0x4_0000_0000, 0x40_0000);
        crate::fixed::lemma_fmul_magnitude(v as int, scale as int, 0x100_0000_0000_0000);
    }
    crate::fixed::fmul(v, scale)
}

/// A scaled bounding box keeps its ordering.
proof fn scale_bounds_in_range(b: Bounds, scale: int)
    requires
        b.min_x <= b.max_x,
        b.min_y <= b.max_y,
        0 <= scale,
    ensures
        crate::fixed::spec_fmul(b.min_x as int, scale)
            <= crate::fixed::spec_fmul(b.max_x as int, scale),
        crate::fixed::spec_fmul(b.min_y as int, scale)
            <= crate::fixed::spec_fmul(b.max_y as int, scale),
{
    crate::fixed::lemma_fmul_monotone(b.min_x as int, b.max_x as int, scale);
    crate::fixed::lemma_fmul_monotone(b.min_y as int, b.max_y as int, scale);
}

/// Pushing one record keeps the coordinate packing consistent.
proof fn lemma_record_pack(controls: Seq<u8>, c: u8)
    ensures
        spec_coord_total(controls.push(c), 0, controls.len() as int + 1)
            == spec_coord_total(controls.push(c), 0, controls.len() as int) + 4 + 2 * (c as int),
        spec_coord_total(controls.push(c), 0, controls.len() as int)
            == spec_coord_total(controls, 0, controls.len() as int),
{
    crate::world::lemma_totals_shift(controls.push(c), controls, 0, controls.len() as int);
}

/// A handle to a path in the world.
#[derive(Clone, Copy, PartialEq, Eq, Structural, Debug)]
pub struct Path {
    pub id: i32,
}

impl Path {
    /// The path's stored bounding box, or nothing for a stale id.
    pub fn get_bounds(&self, world: &World) -> (r: Option<Bounds>)
        ensures
            0 <= self.id && (self.id as int) < world.paths@.len()
                ==> r == Some(world.paths@[self.id as int].bounds),
            !(0 <= self.id && (self.id as int) < world.paths@.len()) ==> r is None,
    {
        if self.id >= 0 && (self.id as usize) < world.paths.len() {
            Some(world.paths[self.id as usize].bounds)
        } else {
            None
        }
    }

    /// The path's rest rotation angle, or zero for a stale id.
    pub fn get_rotation(&self, world: &World) -> (r: i64)
        ensures
            0 <= self.id && (self.id as int) < world.paths@.len()
                ==> r == world.paths@[self.id as int].rotation,
            !(0 <= self.id && (self.id as int) < world.paths@.len()) ==> r == 0,
    {
        if self.id >= 0 && (self.id as usize) < world.paths.len() {
            world.paths[self.id as usize].rotation
        } else {
            0
        }
    }

    /// Animates the path's scale toward `(x, y)` over `t` seconds with
    /// ease-in-out easing, committing the target as the new rest scale.
    pub fn grow(&self, app: &mut App, x: i64, y: i64, t: i64) -> (plans: Vec<FramePlan>)
        requires
            old(app).world.wf(),
            world_poses_in_range(old(app).world),
            video_wf(old(app).output.video),
            old(app).output.render_graph.wf(),
            0 <= t <= MAX_DURATION,
            scalar_in_range(old(app).world.age + t),
            old(app).output.video.pts <= 0x4000_0000_0000_0000,
            scalar_in_range(x as int),
            scalar_in_range(y as int),
        ensures
            final(app).world.wf(),
            world_poses_in_range(final(app).world),
            final(app).world.age == old(app).world.age + t,
            !final(app).world.animating,
            ({
                let fps = old(app).output.video.config->Some_0.fps as int;
                let frames = crate::instance::spec_frame_count(t as int, fps);
                &&& (old(app).output.video.writing && frames >= 2 ==> {
                    &&& plans@.len() == frames
                    &&& final(app).output.video.pts == old(app).output.video.pts + frames
                })
                &&& (!(old(app).output.video.writing && frames >= 2) ==> {
                    &&& plans@.len() == 0
                    &&& final(app).output.video.pts == old(app).output.video.pts
                })
            }),
            spec_animated(
                old(app).world,
                World { age: old(app).world.age, animating: old(app).world.animating,
                    ..final(app).world },
                AnimationUpdate::PathTransform2D(
                    self.id, Some(Vec2 { x, y }), None, None)),
    {
        let mut animations: Vec<Animation> = Vec::new();
        animations.push(Animation {
            duration: t,
            update: AnimationUpdate::PathTransform2D(self.id, Some(Vec2 { x, y }), None, None),
            interpolation: Interpolation::EaseInOut,
        });
        app.run(t, &animations)
    }

    /// Animates the path's position toward `(x, y)` over `t` seconds with
    /// ease-in-out easing, committing the target as the new rest position.
    pub fn translate(&self, app: &mut App, x: i64, y: i64, t: i64) -> (plans: Vec<FramePlan>)
        requires
            old(app).world.wf(),
            world_poses_in_range(old(app).world),
            video_wf(old(app).output.video),
            old(app).output.render_graph.wf(),
            0 <= t <= MAX_DURATION,
            scalar_in_range(old(app).world.age + t),
            old(app).output.video.pts <= 0x4000_0000_0000_0000,
            scalar_in_range(x as int),
            scalar_in_range(y as int),
        ensures
            final(app).world.wf(),
            world_poses_in_range(final(app).world),
            final(app).world.age == old(app).world.age + t,
            !final(app).world.animating,
            ({
                let fps = old(app).output.video.config->Some_0.fps as int;
                let frames = crate::instance::spec_frame_count(t as int, fps);
                &&& (old(app).output.video.writing && frames >= 2 ==> {
                    &&& plans@.len() == frames
                    &&& final(app).output.video.pts == old(app).output.video.pts + frames
                })
                &&& (!(old(app).output.video.writing && frames >= 2) ==> {
                    &&& plans@.len() == 0
                    &&& final(app).output.video.pts == old(app).output.video.pts
                })
            }),
            spec_animated(
                old(app).world,
                World { age: old(app).world.age, animating: old(app).world.animating,
                    ..final(app).world },
                AnimationUpdate::PathTransform2D(
                    self.id, None, Some(Vec2 { x, y }), None)),
    {
        let mut animations: Vec<Animation> = Vec::new();
        animations.push(Animation {
            duration: t,
            update: AnimationUpdate::PathTransform2D(self.id, None, Some(Vec2 { x, y }), None),
            interpolation: Interpolation::EaseInOut,
        });
        app.run(t, &animations)
    }

    /// Animates the path's rotation toward `angle` over `t` seconds with
    /// ease-in-out easing, committing the target as the new rest rotation.
    pub fn rotate(&self, app: &mut App, t: i64, angle: i64) -> (plans: Vec<FramePlan>)
        requires
            old(app).world.wf(),
            world_poses_in_range(old(app).world),
            video_wf(old(app).output.video),
            old(app).output.render_graph.wf(),
            0 <= t <= MAX_DURATION,
            scalar_in_range(old(app).world.age + t),
            old(app).output.video.pts <= 0x4000_0000_0000_0000,
            scalar_in_range(angle as int),
        ensures
            final(app).world.wf(),
            world_poses_in_range(final(app).world),
            final(app).world.age == old(app).world.age + t,
            !final(app).world.animating,
            ({
                let fps = old(app).output.video.config->Some_0.fps as int;
                let frames = crate::instance::spec_frame_count(t as int, fps);
                &&& (old(app).output.video.writing && frames >= 2 ==> {
                    &&& plans@.len() == frames
                    &&& final(app).output.video.pts == old(app).output.video.pts + frames
                })
                &&& (!(old(app).output.video.writing && frames >= 2) ==> {
                    &&& plans@.len() == 0
                    &&& final(app).output.video.pts == old(app).output.video.pts
                })
            }),
            spec_animated(
                old(app).world,
                World { age: old(app).world.age, animating: old(app).world.animating,
                    ..final(app).world },
                AnimationUpdate::PathTransform2D(self.id, None, None, Some(angle))),
    {
        let mut animations: Vec<Animation> = Vec::new();
        animations.push(Animation {
            duration: t,
            update: AnimationUpdate::PathTransform2D(self.id, None, None, Some(angle)),
            interpolation: Interpolation::EaseInOut,
        });
        app.run(t, &animations)
    }
}

} // verus!
