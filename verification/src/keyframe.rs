//! Manual keyframe stepping: an iterator over the normalized time
//! parameters of an animation span, for callers that drive their own
//! per-frame work.

use vstd::prelude::*;

verus! {

use crate::fixed::UNIT;

/// One keyframe: its normalized time parameter.
#[derive(Clone, Copy, PartialEq, Eq, Structural, Debug)]
pub struct Keyframe {
    pub t: i64,
}

/// Steps through the keyframes of a span: frame `i` of `frames` carries
/// the parameter `i / frames` in fixed point, ending exactly at one.
#[derive(Clone, Copy, PartialEq, Eq, Structural, Debug)]
pub struct KeyframeIterator {
    /// How many keyframes have been handed out.
    pub i: usize,
    /// The parameter step between consecutive keyframes.
    pub delta: i64,
    /// How many keyframes the span holds.
    pub frames: usize,
}

/// The normalized parameter of keyframe `i` out of `frames`.
pub open spec fn spec_keyframe_t(i: int, frames: int) -> int {
    i * (UNIT as int) / frames
}

impl KeyframeIterator {
    /// Hands out the next keyframe, or nothing once the span is spent.
    pub fn next(&mut self) -> (r: Option<Keyframe>)
        requires
            old(self).frames <= 0x10_0000,
            old(self).i <= old(self).frames,
        ensures
            final(self).i == old(self).i + 1,
            final(self).frames == old(self).frames,
            final(self).delta == old(self).delta,
            old(self).i < old(self).frames ==> (r matches Some(k)
                && k.t as int == spec_keyframe_t(old(self).i + 1, old(self).frames as int)),
            old(self).i >= old(self).frames ==> r is None,
    {
        self.i = self.i + 1;
        if self.i > self.frames {
            return None;
        }
        proof {
            let fi = self.frames as int;
            assert(0 <= (self.i as int) * (UNIT as int)
                && (self.i as int) * (UNIT as int) <= fi * (UNIT as int))
                by (nonlinear_arith)
                requires 0 < self.i <= self.frames && fi == self.frames && UNIT == 65536,
            ;
            assert(0 * fi == 0) by (nonlinear_arith);
            assert((UNIT as int) * fi == fi * (UNIT as int)) by (nonlinear_arith);
            crate::fixed::lemma_div_between(
                (self.i as int) * (UNIT as int), 0, UNIT as int, fi);
        }
        let t: i64 = ((self.i as i64) * UNIT) / (self.frames as i64);
        Some(Keyframe { t })
    }
}

} // verus!
