//! Fixed-point scalar arithmetic.
//!
//! Every scalar quantity in the library (coordinates, scales, angles,
//! seconds) is an `i64` counted in steps of `1/UNIT`, so `UNIT` raw steps
//! stand for the real value `1.0`.  Products are rescaled by a truncating
//! division (rounding toward zero), and interpolation is exact at both ends
//! of its parameter range.

use vstd::prelude::*;

verus! {

use vstd::arithmetic::div_mod::lemma_div_multiples_vanish;
use vstd::arithmetic::div_mod::lemma_div_is_ordered;
use vstd::arithmetic::div_mod::lemma_div_pos_is_pos;
use vstd::arithmetic::div_mod::lemma_div_nonincreasing;
use vstd::arithmetic::mul::lemma_mul_inequality;

/// Number of raw steps in one whole unit (the fixed-point scale).
pub const UNIT: i64 = 65536;

/// Largest magnitude the library accepts for a scalar taking part in
/// interpolation or transform composition.  It leaves ample headroom in an
/// `i64` for the intermediate products the library forms.
pub const SCALAR_LIMIT: i64 = 0x2000_0000_0000;

/// Largest magnitude accepted for a geometry coordinate in the packed
/// buffers; small enough that tessellation arithmetic stays exact.
pub const GEOM_LIMIT: i64 = 0x100_0000_0000;

/// A raw value within `[-SCALAR_LIMIT, SCALAR_LIMIT]`.
pub open spec fn scalar_in_range(x: int) -> bool {
    -(SCALAR_LIMIT as int) <= x <= SCALAR_LIMIT as int
}

/// Division of a raw product by `UNIT`, rounding toward zero.
pub open spec fn scale_down(x: int) -> int {
    if x >= 0 {
        x / (UNIT as int)
    } else {
        -((-x) / (UNIT as int))
    }
}

/// The fixed-point product of two raw values: `trunc(a * b / UNIT)`.
pub open spec fn spec_fmul(a: int, b: int) -> int {
    scale_down(a * b)
}

/// Linear interpolation from `a` to `b` by the weight `w` out of `UNIT`.
pub open spec fn spec_lerp(a: int, b: int, w: int) -> int {
    a + scale_down((b - a) * w)
}

/// Scaling a value by a whole multiple of `UNIT` loses nothing.
pub proof fn lemma_scale_down_exact(k: int)
    ensures scale_down(k * (UNIT as int)) == k,
{
    if k >= 0 {
        lemma_div_multiples_vanish(k, UNIT as int);
    } else {
        assert(-(k * (UNIT as int)) == (-k) * (UNIT as int)) by (nonlinear_arith);
        lemma_div_multiples_vanish(-k, UNIT as int);
    }
}

/// `scale_down` never grows a nonnegative value and never shrinks a
/// negative one past zero.
pub proof fn lemma_scale_down_bounds(x: int)
    ensures
        x >= 0 ==> 0 <= scale_down(x) <= x,
        x < 0 ==> x <= scale_down(x) <= 0,
{
    if x >= 0 {
        lemma_div_pos_is_pos(x, UNIT as int);
        lemma_div_nonincreasing(x, UNIT as int);
    } else {
        lemma_div_pos_is_pos(-x, UNIT as int);
        lemma_div_nonincreasing(-x, UNIT as int);
    }
}

/// Interpolation hits its endpoints exactly and stays between them.
pub proof fn lemma_lerp_endpoints(a: int, b: int)
    ensures
        spec_lerp(a, b, 0) == a,
        spec_lerp(a, b, UNIT as int) == b,
{
    assert((b - a) * 0 == 0) by (nonlinear_arith);
    assert(spec_lerp(a, b, 0) == a);
    lemma_scale_down_exact(b - a);
}

/// The interpolated value never leaves the closed interval spanned by the
/// endpoints.
pub proof fn lemma_lerp_in_interval(a: int, b: int, w: int)
    requires 0 <= w <= UNIT as int,
    ensures
        a <= b ==> a <= spec_lerp(a, b, w) <= b,
        b <= a ==> b <= spec_lerp(a, b, w) <= a,
{
    let d = b - a;
    if d >= 0 {
        assert(d * w >= 0) by (nonlinear_arith)
            requires d >= 0 && w >= 0,
        ;
        lemma_mul_inequality(w, UNIT as int, d);
        assert(d * w == w * d) by (nonlinear_arith);
        assert(d * (UNIT as int) == (UNIT as int) * d) by (nonlinear_arith);
        lemma_div_is_ordered(d * w, d * (UNIT as int), UNIT as int);
        lemma_scale_down_exact(d);
        lemma_scale_down_bounds(d * w);
    } else {
        assert(d * w <= 0) by (nonlinear_arith)
            requires d < 0 && w >= 0,
        ;
        assert(-(d * w) == (-d) * w) by (nonlinear_arith);
        lemma_mul_inequality(w, UNIT as int, -d);
        assert((-d) * w == w * (-d)) by (nonlinear_arith);
        assert((-d) * (UNIT as int) == (UNIT as int) * (-d)) by (nonlinear_arith);
        lemma_div_is_ordered((-d) * w, (-d) * (UNIT as int), UNIT as int);
        lemma_scale_down_exact(-d);
        lemma_scale_down_bounds(d * w);
    }
}

/// A product with a weight out of `UNIT` never grows a nonnegative value.
pub proof fn lemma_fmul_unit_range(a: int, b: int)
    requires
        0 <= a,
        0 <= b <= UNIT as int,
    ensures
        0 <= spec_fmul(a, b) <= a,
{
    assert(a * b == b * a) by (nonlinear_arith);
    assert(a * b >= 0) by (nonlinear_arith)
        requires a >= 0 && b >= 0,
    ;
    lemma_mul_inequality(b, UNIT as int, a);
    assert(a * (UNIT as int) == (UNIT as int) * a) by (nonlinear_arith);
    lemma_div_is_ordered(a * b, a * (UNIT as int), UNIT as int);
    lemma_scale_down_exact(a);
    lemma_scale_down_bounds(a * b);
}

/// Rescaling preserves order.
pub proof fn lemma_scale_down_monotone(x: int, y: int)
    requires
        x <= y,
    ensures
        scale_down(x) <= scale_down(y),
{
    if x >= 0 {
        lemma_div_is_ordered(x, y, UNIT as int);
    } else if y < 0 {
        lemma_div_is_ordered(-y, -x, UNIT as int);
    } else {
        lemma_div_pos_is_pos(-x, UNIT as int);
        lemma_div_pos_is_pos(y, UNIT as int);
    }
}

/// Weighting two ordered values by the same nonnegative weight keeps
/// their order.
pub proof fn lemma_fmul_monotone(a: int, b: int, w: int)
    requires
        a <= b,
        0 <= w,
    ensures
        spec_fmul(a, w) <= spec_fmul(b, w),
{
    assert(a * w <= b * w) by (nonlinear_arith)
        requires a <= b && 0 <= w,
    ;
    lemma_scale_down_monotone(a * w, b * w);
}

/// A value between two multiples of a positive divisor divides to a
/// quotient between the multipliers.
pub proof fn lemma_div_between(x: int, lo: int, hi: int, d: int)
    requires
        0 < d,
        lo * d <= x <= hi * d,
    ensures
        lo <= x / d <= hi,
{
    lemma_div_is_ordered(lo * d, x, d);
    lemma_div_is_ordered(x, hi * d, d);
    assert(lo * d == d * lo) by (nonlinear_arith);
    assert(hi * d == d * hi) by (nonlinear_arith);
    lemma_div_multiples_vanish(lo, d);
    lemma_div_multiples_vanish(hi, d);
}

/// The magnitude of a product is bounded by the product of the bounds.
pub proof fn lemma_abs_product(a: int, b: int, abound: int, bbound: int)
    requires
        -abound <= a <= abound,
        -bbound <= b <= bbound,
        0 <= abound,
        0 <= bbound,
    ensures
        -(abound * bbound) <= a * b <= abound * bbound,
{
    assert(-(abound * bbound) <= a * b <= abound * bbound) by (nonlinear_arith)
        requires
            -abound <= a <= abound && -bbound <= b <= bbound && 0 <= abound && 0 <= bbound,
    ;
}

/// Rescaling keeps a magnitude bound: a product bounded by `m` rescales to a
/// value bounded by `m / UNIT`.
pub proof fn lemma_fmul_magnitude(a: int, b: int, m: int)
    requires
        -m <= a * b <= m,
        0 <= m,
    ensures
        -(m / (UNIT as int)) <= spec_fmul(a, b) <= m / (UNIT as int),
{
    let x = a * b;
    if x >= 0 {
        lemma_div_is_ordered(x, m, UNIT as int);
        lemma_div_pos_is_pos(x, UNIT as int);
    } else {
        lemma_div_is_ordered(-x, m, UNIT as int);
        lemma_div_pos_is_pos(-x, UNIT as int);
    }
}

/// The structural identities of the fixed-point product: zero and the whole
/// unit behave as zero and one, and negation passes through.
pub proof fn lemma_fmul_basics()
    ensures
        forall|a: int| #[trigger] spec_fmul(a, 0) == 0,
        forall|a: int| #[trigger] spec_fmul(0, a) == 0,
        forall|a: int| #[trigger] spec_fmul(a, UNIT as int) == a,
        forall|a: int| #[trigger] spec_fmul(UNIT as int, a) == a,
        forall|a: int, b: int| #[trigger] spec_fmul(a, -b) == -spec_fmul(a, b),
{
    assert forall|a: int| #[trigger] spec_fmul(a, 0) == 0 by {
        assert(a * 0 == 0) by (nonlinear_arith);
    };
    assert forall|a: int| #[trigger] spec_fmul(0, a) == 0 by {
        assert(0 * a == 0) by (nonlinear_arith);
    };
    assert forall|a: int| #[trigger] spec_fmul(a, UNIT as int) == a by {
        lemma_scale_down_exact(a);
    };
    assert forall|a: int| #[trigger] spec_fmul(UNIT as int, a) == a by {
        assert((UNIT as int) * a == a * (UNIT as int)) by (nonlinear_arith);
        lemma_scale_down_exact(a);
    };
    assert forall|a: int, b: int| #[trigger] spec_fmul(a, -b) == -spec_fmul(a, b) by {
        assert(a * (-b) == -(a * b)) by (nonlinear_arith);
    };
}

/// Products of values within a couple of units stay far from overflow.
pub proof fn lemma_unit_product_small(a: int, b: int)
    requires
        0 <= a <= 2 * (UNIT as int),
        0 <= b <= 2 * (UNIT as int),
    ensures
        0 <= a * b <= 0x7fff_ffff_ffff_ffff,
{
    assert(0 <= a * b <= 4 * (UNIT as int) * (UNIT as int)) by (nonlinear_arith)
        requires 0 <= a <= 2 * (UNIT as int) && 0 <= b <= 2 * (UNIT as int),
    ;
}

/// The fixed-point product of two raw values, rescaled by `UNIT` and rounded
/// toward zero.
pub fn fmul(a: i64, b: i64) -> (r: i64)
    requires
        -0x7fff_ffff_ffff_ffff <= a as int * b as int <= 0x7fff_ffff_ffff_ffff,
    ensures
        r as int == spec_fmul(a as int, b as int),
{
    let p: i64 = a * b;
    if p >= 0 {
        proof {
            lemma_div_pos_is_pos(p as int, UNIT as int);
            lemma_div_nonincreasing(p as int, UNIT as int);
        }
        p / UNIT
    } else {
        proof {
            lemma_div_pos_is_pos(-(p as int), UNIT as int);
            lemma_div_nonincreasing(-(p as int), UNIT as int);
        }
        -((-p) / UNIT)
    }
}

/// Linear interpolation from `a` to `b` by the weight `w` out of `UNIT`;
/// exact at `w == 0` and `w == UNIT`, and never outside the interval the
/// endpoints span.
pub fn lerp(a: i64, b: i64, w: i64) -> (r: i64)
    requires
        0 <= w <= UNIT,
        scalar_in_range(a as int),
        scalar_in_range(b as int),
    ensures
        r as int == spec_lerp(a as int, b as int, w as int),
        w == 0 ==> r == a,
        w == UNIT ==> r == b,
        a <= b ==> a <= r <= b,
        b <= a ==> b <= r <= a,
{
    let d: i64 = b - a;
    proof {
        assert(d as int * w as int <= 2 * (SCALAR_LIMIT as int) * (UNIT as int)
            && -(2 * (SCALAR_LIMIT as int) * (UNIT as int)) <= d as int * w as int)
            by (nonlinear_arith)
            requires
                -(2 * (SCALAR_LIMIT as int)) <= d as int <= 2 * (SCALAR_LIMIT as int),
                0 <= w as int <= UNIT as int,
        ;
        lemma_lerp_in_interval(a as int, b as int, w as int);
        lemma_lerp_endpoints(a as int, b as int);
    }
    let scaled: i64 = fmul(d, w);
    proof {
        lemma_scale_down_bounds(d as int * w as int);
    }
    a + scaled
}

} // verus!
